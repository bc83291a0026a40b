//! The order of a schedule: games by the instant at which they start, games
//! that start together in the order in which they came.

use crate::clock::Instant;
use crate::join::{games_of, Game, GameModel};
use vstd::prelude::*;

verus! {

/// Whether no game of the list starts before a game in front of it.
pub open spec fn chronological(games: Seq<GameModel>) -> bool {
    forall|i: int, j: int|
        0 <= i <= j < games.len() ==> (#[trigger] games[i]).scheduled_at.not_after(
            (#[trigger] games[j]).scheduled_at,
        )
}

/// The games of the list that start at `at`, in the order of the list.
pub open spec fn starting_at(games: Seq<GameModel>, at: Instant) -> Seq<GameModel> {
    games.filter(|game: GameModel| game.scheduled_at == at)
}

/// Where a game goes in a list that is in order: behind the last game that
/// does not start after it.
pub open spec fn place_of(games: Seq<GameModel>, game: GameModel) -> int
    decreases games.len(),
{
    if games.len() == 0 {
        0
    } else if games.last().scheduled_at.not_after(game.scheduled_at) {
        games.len() as int
    } else {
        place_of(games.drop_last(), game)
    }
}

/// The games in the order of their starts. Games that start at the same
/// instant stay in the order in which the list has them.
pub open spec fn in_order(games: Seq<GameModel>) -> Seq<GameModel>
    decreases games.len(),
{
    if games.len() == 0 {
        Seq::empty()
    } else {
        let before = in_order(games.drop_last());
        before.insert(place_of(before, games.last()), games.last())
    }
}

/// `place_of` is the one index that has only later starts behind it and a
/// start that is not later in front of it.
pub proof fn lemma_place_of(games: Seq<GameModel>, game: GameModel, place: int)
    requires
        0 <= place <= games.len(),
        forall|k: int|
            place <= k < games.len() ==> !(#[trigger] games[k]).scheduled_at.not_after(
                game.scheduled_at,
            ),
        place > 0 ==> games[place - 1].scheduled_at.not_after(game.scheduled_at),
    ensures
        place_of(games, game) == place,
    decreases games.len(),
{
    if games.len() > 0 && place < games.len() {
        lemma_place_of(games.drop_last(), game, place);
    }
}

/// What `place_of` promises of the index it gives.
pub proof fn lemma_place_of_bounds(games: Seq<GameModel>, game: GameModel)
    ensures
        0 <= place_of(games, game) <= games.len(),
        forall|k: int|
            place_of(games, game) <= k < games.len() ==> !(#[trigger] games[k]).scheduled_at.not_after(
                game.scheduled_at,
            ),
        place_of(games, game) > 0 ==> games[place_of(games, game) - 1].scheduled_at.not_after(
            game.scheduled_at,
        ),
    decreases games.len(),
{
    if games.len() > 0 && !games.last().scheduled_at.not_after(game.scheduled_at) {
        let front = games.drop_last();
        lemma_place_of_bounds(front, game);
        assert forall|k: int| place_of(games, game) <= k < games.len() implies !(
        #[trigger] games[k]).scheduled_at.not_after(game.scheduled_at) by {
            if k < front.len() {
                assert(games[k] == front[k]);
            }
        }
    }
}

/// The games in order keep their number.
pub proof fn lemma_in_order_len(games: Seq<GameModel>)
    ensures
        in_order(games).len() == games.len(),
    decreases games.len(),
{
    if games.len() > 0 {
        lemma_in_order_len(games.drop_last());
        lemma_place_of_bounds(in_order(games.drop_last()), games.last());
    }
}

/// The games in order are chronological: no game starts before a game in
/// front of it.
pub proof fn lemma_in_order_chronological(games: Seq<GameModel>)
    ensures
        chronological(in_order(games)),
    decreases games.len(),
{
    if games.len() > 0 {
        let before = in_order(games.drop_last());
        let game = games.last();
        let place = place_of(before, game);
        lemma_in_order_chronological(games.drop_last());
        lemma_place_of_bounds(before, game);
        let after = before.insert(place, game);
        assert forall|i: int, j: int| 0 <= i <= j < after.len() implies (#[trigger] after[i]).scheduled_at.not_after(
            (#[trigger] after[j]).scheduled_at,
        ) by {}
    }
}

/// The games in order are the games of the list, each as often as the list
/// has it.
pub proof fn lemma_in_order_same_games(games: Seq<GameModel>)
    ensures
        in_order(games).to_multiset() == games.to_multiset(),
    decreases games.len(),
{
    broadcast use vstd::seq_lib::to_multiset_insert, vstd::seq_lib::to_multiset_build;

    if games.len() > 0 {
        let before = in_order(games.drop_last());
        lemma_in_order_same_games(games.drop_last());
        lemma_place_of_bounds(before, games.last());
        assert(games.drop_last().push(games.last()) == games);
    } else {
        assert(in_order(games) == games);
    }
}

/// Ordering is stable: the games that start at one instant come in the order
/// in which the list had them.
pub proof fn lemma_in_order_stable(games: Seq<GameModel>, at: Instant)
    ensures
        starting_at(in_order(games), at) == starting_at(games, at),
    decreases games.len(),
{
    if games.len() > 0 {
        let before = in_order(games.drop_last());
        let game = games.last();
        let place = place_of(before, game);
        let starts = |game: GameModel| game.scheduled_at == at;
        lemma_in_order_stable(games.drop_last(), at);
        lemma_place_of_bounds(before, game);
        let front = before.take(place);
        let back = before.skip(place);
        assert(before.insert(place, game) == front + seq![game] + back);
        assert(before == front + back);
        assert(games == games.drop_last() + seq![game]);
        Seq::filter_distributes_over_add(front, seq![game], starts);
        Seq::filter_distributes_over_add(front + seq![game], back, starts);
        Seq::filter_distributes_over_add(front, back, starts);
        Seq::filter_distributes_over_add(games.drop_last(), seq![game], starts);
        if game.scheduled_at == at {
            assert forall|k: int| 0 <= k < back.len() implies !starts(#[trigger] back[k]) by {}
            back.lemma_all_neg_filter_empty(starts);
        } else {
            let one = seq![game];
            assert forall|k: int| 0 <= k < one.len() implies !starts(#[trigger] one[k]) by {}
            one.lemma_all_neg_filter_empty(starts);
        }
    }
}

/// Every game of the ordered list is a game of the list it was made from.
pub proof fn lemma_in_order_has(games: Seq<GameModel>, i: int) -> (source: int)
    requires
        0 <= i < in_order(games).len(),
    ensures
        0 <= source < games.len(),
        games[source] == in_order(games)[i],
    decreases games.len(),
{
    let before = in_order(games.drop_last());
    let place = place_of(before, games.last());
    lemma_place_of_bounds(before, games.last());
    if i == place {
        games.len() - 1
    } else if i < place {
        lemma_in_order_has(games.drop_last(), i)
    } else {
        lemma_in_order_has(games.drop_last(), i - 1)
    }
}

/// Puts the games in the order of their starts. Games that start at the same
/// instant keep their order.
pub fn sort_games(games: &mut Vec<Game>)
    ensures
        games_of(final(games)@) == in_order(games_of(old(games)@)),
        chronological(games_of(final(games)@)),
        games_of(final(games)@).to_multiset() == games_of(old(games)@).to_multiset(),
{
    let ghost given = games_of(games@);
    let mut i: usize = 0;
    while i < games.len()
        invariant
            i <= games.len(),
            games.len() == given.len(),
            games_of(games@) == in_order(given.take(i as int)) + given.skip(i as int),
        decreases games.len() - i,
    {
        let ghost sorted = in_order(given.take(i as int));
        proof {
            lemma_in_order_len(given.take(i as int));
        }
        let ghost current = games@;
        let game = games.remove(i);
        proof {
            assert(games_of(current)[i as int] == given.skip(i as int)[0]);
            assert(games_of(games@) == games_of(current).remove(i as int));
        }
        let mut place: usize = i;
        while place > 0 && !games[place - 1].scheduled_at.is_not_after(&game.scheduled_at)
            invariant
                place <= i,
                i < given.len(),
                games.len() == given.len() - 1,
                sorted.len() == i,
                games_of(games@) == sorted + given.skip(i + 1),
                forall|k: int|
                    place <= k < sorted.len() ==> !(#[trigger] sorted[k]).scheduled_at.not_after(
                        game.scheduled_at,
                    ),
            decreases place,
        {
            proof {
                assert(games_of(games@)[place - 1] == sorted[place - 1]);
            }
            place -= 1;
        }
        proof {
            if place > 0 {
                assert(games_of(games@)[place - 1] == sorted[place - 1]);
            }
            lemma_place_of(sorted, game@, place as int);
            assert(given.take(i + 1).drop_last() == given.take(i as int));
        }
        let ghost removed = games@;
        games.insert(place, game);
        proof {
            assert(games_of(games@) == games_of(removed).insert(place as int, game@));
        }
        i += 1;
    }
    proof {
        lemma_in_order_chronological(given);
        lemma_in_order_same_games(given);
    }
}

} // verus!
