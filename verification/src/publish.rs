//! The atomic publication of a file: its contents go to a temporary file
//! beside it, which then takes its place. This module decides the names and
//! the steps; the caller touches the disk.

use vstd::prelude::*;
use vstd::string::*;

verus! {

/// The file that holds the schedule.
pub const SCHEDULE_FILE: &'static str = "schedule.json";

/// The file that holds the calendar feed.
pub const CALENDAR_FILE: &'static str = "schedule.ics";

/// What a temporary file's name adds to the name of the file it is for.
pub const TEMP_SUFFIX: &'static str = ".temp";

/// The name of the temporary file for `file`.
pub open spec fn temp_name_of(file: Seq<char>) -> Seq<char> {
    file + TEMP_SUFFIX@
}

/// The name of the temporary file for `file`, in the same directory.
pub fn temp_name(file: &str) -> (temp: String)
    ensures
        temp@ == temp_name_of(file@),
{
    let mut temp = file.to_owned();
    temp.append(TEMP_SUFFIX);
    temp
}

/// A temporary file never has the name of the file it is for.
pub proof fn lemma_temp_name_differs(file: Seq<char>)
    ensures
        temp_name_of(file) != file,
{
    reveal_strlit(".temp");
}

/// Two files never share a temporary file.
pub proof fn lemma_temp_names_differ(first: Seq<char>, second: Seq<char>)
    requires
        first != second,
    ensures
        temp_name_of(first) != temp_name_of(second),
{
    if temp_name_of(first) == temp_name_of(second) {
        assert(first.len() == second.len()) by {
            assert(temp_name_of(second).len() == second.len() + TEMP_SUFFIX@.len());
        }
        assert(first == temp_name_of(first).take(first.len() as int));
        assert(second == temp_name_of(second).take(second.len() as int));
    }
}

/// Where a publication stands: what the caller is to do next.
#[derive(Clone, Copy, Debug, PartialEq, Eq, Structural)]
pub enum Step {
    /// Write the contents to the temporary file, making or emptying it first.
    WriteTemp,
    /// Rename the temporary file to the file.
    Replace,
    /// Nothing: the file has its new contents.
    Finished,
    /// Nothing: a step failed. The file is as it was before; the temporary
    /// file may be left behind.
    Abandoned,
}

/// The step that follows `step`, given whether the caller could carry `step`
/// out. A failure abandons the publication; the two ends stay.
pub open spec fn step_after(step: Step, succeeded: bool) -> Step {
    match step {
        Step::WriteTemp => if succeeded {
            Step::Replace
        } else {
            Step::Abandoned
        },
        Step::Replace => if succeeded {
            Step::Finished
        } else {
            Step::Abandoned
        },
        Step::Finished => Step::Finished,
        Step::Abandoned => Step::Abandoned,
    }
}

/// The first step of every publication.
pub fn first_step() -> (step: Step)
    ensures
        step == Step::WriteTemp,
{
    Step::WriteTemp
}

/// The step that follows `step`, given whether the caller could carry `step`
/// out.
pub fn next_step(step: Step, succeeded: bool) -> (next: Step)
    ensures
        next == step_after(step, succeeded),
        next == Step::Replace <==> step == Step::WriteTemp && succeeded,
        next == Step::Finished <==> (step == Step::Replace && succeeded) || step == Step::Finished,
{
    match step {
        Step::WriteTemp => if succeeded {
            Step::Replace
        } else {
            Step::Abandoned
        },
        Step::Replace => if succeeded {
            Step::Finished
        } else {
            Step::Abandoned
        },
        Step::Finished => Step::Finished,
        Step::Abandoned => Step::Abandoned,
    }
}

/// What carrying out `step` does to a directory, seen as a map from names to
/// contents. `written` is what has reached the temporary file: all of the new
/// contents, or less where the writing was cut short.
pub open spec fn directory_after(
    step: Step,
    directory: Map<Seq<char>, Seq<u8>>,
    file: Seq<char>,
    written: Seq<u8>,
) -> Map<Seq<char>, Seq<u8>> {
    match step {
        Step::WriteTemp => directory.insert(temp_name_of(file), written),
        Step::Replace => if directory.contains_key(temp_name_of(file)) {
            directory.remove(temp_name_of(file)).insert(file, directory[temp_name_of(file)])
        } else {
            directory
        },
        _ => directory,
    }
}

/// A publication that stops after the temporary file was written, or in the
/// middle of writing it, leaves the file untouched: there with the contents it
/// had, or not there as before.
pub proof fn lemma_interrupted_publication_keeps_file(
    directory: Map<Seq<char>, Seq<u8>>,
    file: Seq<char>,
    written: Seq<u8>,
)
    ensures
        directory_after(Step::WriteTemp, directory, file, written).contains_key(file)
            == directory.contains_key(file),
        directory.contains_key(file) ==> directory_after(
            Step::WriteTemp,
            directory,
            file,
            written,
        )[file] == directory[file],
{
    lemma_temp_name_differs(file);
}

/// A publication that runs to its end leaves the file with exactly the new
/// contents, and no temporary file.
pub proof fn lemma_finished_publication_has_contents(
    directory: Map<Seq<char>, Seq<u8>>,
    file: Seq<char>,
    contents: Seq<u8>,
)
    ensures
        ({
            let written = directory_after(Step::WriteTemp, directory, file, contents);
            let replaced = directory_after(Step::Replace, written, file, contents);
            &&& replaced.contains_key(file)
            &&& replaced[file] == contents
            &&& !replaced.contains_key(temp_name_of(file))
        }),
{
    lemma_temp_name_differs(file);
}

/// Publishing one file touches no other file: not its contents and not its
/// temporary file.
pub proof fn lemma_publication_keeps_other_files(
    step: Step,
    directory: Map<Seq<char>, Seq<u8>>,
    file: Seq<char>,
    written: Seq<u8>,
    other: Seq<char>,
)
    requires
        other != file,
        other != temp_name_of(file),
    ensures
        directory_after(step, directory, file, written).contains_key(other)
            == directory.contains_key(other),
        directory.contains_key(other) ==> directory_after(step, directory, file, written)[other]
            == directory[other],
{
}

} // verus!
