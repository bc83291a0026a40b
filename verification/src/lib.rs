//! Turns a league's flat list of team and game records into a time-ordered
//! schedule, renders it as a calendar feed and plans its atomic publication.

pub mod calendar;
pub mod clock;
pub mod join;
pub mod models;
pub mod order;
pub mod publish;
pub mod request;
pub mod schedule;
pub mod teams;
