use vstd::prelude::*;

use crate::anki::{
    add_result, deck_listed, next, note_query, notes_found, start, trailing_spaces, AddResult,
    CreationView, Outcome, Reply, Stage, StepView, MAX_TRAILING_SPACES,
};

verus! {

/// The state a note creation reaches from `s` on `replies`, one reply per request.
pub open spec fn state_after(s: CreationView, replies: Seq<Reply>) -> CreationView
    decreases replies.len(),
{
    if replies.len() == 0 {
        s
    } else {
        state_after(next(s, replies[0]).0, replies.drop_first())
    }
}

/// The steps a note creation takes from `s` on `replies`.
pub open spec fn steps(s: CreationView, replies: Seq<Reply>) -> Seq<StepView>
    decreases replies.len(),
{
    if replies.len() == 0 {
        seq![]
    } else {
        seq![next(s, replies[0]).1] + steps(next(s, replies[0]).0, replies.drop_first())
    }
}

/// How many `addNotes` requests a note creation sends from `s` on `replies`.
pub open spec fn adds(s: CreationView, replies: Seq<Reply>) -> nat
    decreases replies.len(),
{
    if replies.len() == 0 {
        0
    } else {
        (if next(s, replies[0]).1 is AddNotes { 1nat } else { 0nat }) + adds(
            next(s, replies[0]).0,
            replies.drop_first(),
        )
    }
}

proof fn lemma_steps_len(s: CreationView, replies: Seq<Reply>)
    ensures
        steps(s, replies).len() == replies.len(),
    decreases replies.len(),
{
    if replies.len() > 0 {
        lemma_steps_len(next(s, replies[0]).0, replies.drop_first());
    }
}

/// Moving one reply forward: the state before reply `i + 1` from `s` is the state
/// before reply `i` from the next state.
proof fn lemma_state_after_shift(s: CreationView, replies: Seq<Reply>, i: int)
    requires
        0 <= i < replies.len(),
    ensures
        state_after(s, replies.take(i + 1)) == state_after(
            next(s, replies[0]).0,
            replies.drop_first().take(i),
        ),
{
    assert(replies.take(i + 1).drop_first() =~= replies.drop_first().take(i));
    assert(replies.take(i + 1)[0] == replies[0]);
}

proof fn lemma_state_after_none(s: CreationView, replies: Seq<Reply>)
    ensures
        state_after(s, replies.take(0)) == s,
{
    assert(replies.take(0) =~= Seq::<Reply>::empty());
}

/// A finished note creation stays finished and sends nothing more.
pub proof fn lemma_finished_is_final(s: CreationView, replies: Seq<Reply>)
    requires
        s.stage is Finished,
    ensures
        state_after(s, replies) == s,
        adds(s, replies) == 0,
        forall|i: int| 0 <= i < replies.len() ==> #[trigger] steps(s, replies)[i] == StepView::Done(
            s.stage->Finished_0,
        ),
    decreases replies.len(),
{
    lemma_steps_len(s, replies);
    if replies.len() > 0 {
        lemma_finished_is_final(s, replies.drop_first());
        assert forall|i: int| 0 <= i < replies.len() implies #[trigger] steps(s, replies)[i]
            == StepView::Done(s.stage->Finished_0) by {
            if i > 0 {
                assert(steps(s, replies)[i] == steps(s, replies.drop_first())[i - 1]);
            }
        }
    }
}

/// A note that the search in its deck finds is never sent: the creation ends as
/// already present, and every later step is that end.
pub proof fn lemma_found_note_is_not_sent(s: CreationView, replies: Seq<Reply>)
    requires
        s.stage == Stage::FindingNotes,
        replies.len() > 0,
        notes_found(replies[0]),
    ensures
        adds(s, replies) == 0,
        state_after(s, replies).stage == Stage::Finished(Outcome::AlreadyExistsLocally),
        forall|i: int| 0 <= i < replies.len() ==> #[trigger] steps(s, replies)[i] == StepView::Done(
            Outcome::AlreadyExistsLocally,
        ),
{
    let f = next(s, replies[0]).0;
    lemma_finished_is_final(f, replies.drop_first());
    lemma_steps_len(s, replies);
    assert forall|i: int| 0 <= i < replies.len() implies #[trigger] steps(s, replies)[i]
        == StepView::Done(Outcome::AlreadyExistsLocally) by {
        if i > 0 {
            assert(steps(s, replies)[i] == steps(f, replies.drop_first())[i - 1]);
        }
    }
}

/// A deck that the listing does not name is created by the very next request, and
/// only once: the request after it searches the deck, or the creation ends on a
/// transport failure. A listed deck is not created.
pub proof fn lemma_absent_deck_created_once(s: CreationView, replies: Seq<Reply>)
    requires
        s.stage == Stage::ListingDecks,
        replies.len() >= 2,
    ensures
        !deck_listed(replies[0], s.deck) ==> steps(s, replies)[0] == StepView::CreateDeck(s.deck),
        !deck_listed(replies[0], s.deck) ==> (steps(s, replies)[1] == StepView::FindNotes(
            note_query(s.deck, s.front),
        ) || steps(s, replies)[1] == StepView::Done(Outcome::TransportFailed)),
        deck_listed(replies[0], s.deck) ==> steps(s, replies)[0] == StepView::FindNotes(
            note_query(s.deck, s.front),
        ),
{
    let s1 = next(s, replies[0]).0;
    let r1 = replies.drop_first();
    assert(steps(s, replies)[1] == steps(s1, r1)[0]);
}

/// Every time the creation from `s` searched its deck, the search found the note.
pub open spec fn search_always_finds(s: CreationView, replies: Seq<Reply>) -> bool {
    forall|i: int|
        0 <= i < replies.len() && #[trigger] state_after(s, replies.take(i)).stage
            == Stage::FindingNotes ==> notes_found(replies[i])
}

pub open spec fn sends_no_note(stage: Stage) -> bool {
    stage == Stage::ListingDecks || stage == Stage::CreatingDeck || stage == Stage::FindingNotes
        || stage == Stage::Finished(Outcome::AlreadyExistsLocally) || stage == Stage::Finished(
        Outcome::TransportFailed,
    )
}

proof fn lemma_found_everywhere(s: CreationView, replies: Seq<Reply>)
    requires
        sends_no_note(s.stage),
        search_always_finds(s, replies),
    ensures
        adds(s, replies) == 0,
        sends_no_note(state_after(s, replies).stage),
    decreases replies.len(),
{
    if replies.len() > 0 {
        lemma_state_after_none(s, replies);
        let s1 = next(s, replies[0]).0;
        let r1 = replies.drop_first();
        assert forall|i: int|
            0 <= i < r1.len() && #[trigger] state_after(s1, r1.take(i)).stage
                == Stage::FindingNotes implies notes_found(r1[i]) by {
            lemma_state_after_shift(s, replies, i);
            assert(state_after(s, replies.take(i + 1)).stage == Stage::FindingNotes);
            assert(r1[i] == replies[i + 1]);
        }
        lemma_found_everywhere(s1, r1);
    }
}

/// Filing the same note twice: once a first creation has made the note and every
/// search of the second creation finds it, the second sends no `addNotes` request
/// and does not end as created.
pub proof fn lemma_second_creation_sends_nothing(
    deck: Seq<char>,
    front: Seq<char>,
    back: Seq<char>,
    first: Seq<Reply>,
    second: Seq<Reply>,
)
    requires
        state_after(start(deck, front, back), first).stage == Stage::Finished(Outcome::Created),
        search_always_finds(start(deck, front, back), second),
    ensures
        adds(start(deck, front, back), second) == 0,
        state_after(start(deck, front, back), second).stage != Stage::Finished(Outcome::Created),
{
    lemma_found_everywhere(start(deck, front, back), second);
}

/// How many `addNotes` requests a creation may still send when its front ends in
/// `t` spaces and it has not yet sent the current one.
pub open spec fn rounds_left(t: nat) -> nat {
    if t > MAX_TRAILING_SPACES {
        1
    } else {
        (MAX_TRAILING_SPACES + 2 - t) as nat
    }
}

pub open spec fn adds_left(s: CreationView) -> nat {
    match s.stage {
        Stage::AddingNotes => (rounds_left(trailing_spaces(s.front)) - 1) as nat,
        Stage::Finished(_) => 0,
        _ => rounds_left(trailing_spaces(s.front)),
    }
}

proof fn lemma_push_space(front: Seq<char>)
    ensures
        trailing_spaces(front.push(' ')) == trailing_spaces(front) + 1,
{
    assert(front.push(' ').drop_last() =~= front);
}

proof fn lemma_adds_left(s: CreationView, replies: Seq<Reply>)
    ensures
        adds(s, replies) <= adds_left(s),
    decreases replies.len(),
{
    if replies.len() > 0 {
        lemma_push_space(s.front);
        lemma_adds_left(next(s, replies[0]).0, replies.drop_first());
    }
}

/// Whatever the service answers, a creation sends at most seven `addNotes`
/// requests, fewer the more spaces its front ends in.
pub proof fn lemma_adds_bounded(deck: Seq<char>, front: Seq<char>, back: Seq<char>, replies: Seq<Reply>)
    ensures
        adds(start(deck, front, back), replies) <= rounds_left(trailing_spaces(front)),
        rounds_left(trailing_spaces(front)) <= 7,
{
    lemma_adds_left(start(deck, front, back), replies);
}

/// Conflicts cannot make a creation retry without end: one whose front already ends
/// in a space sends at most six `addNotes` requests, whatever the service answers.
pub proof fn lemma_conflict_retries_bounded(
    deck: Seq<char>,
    front: Seq<char>,
    back: Seq<char>,
    replies: Seq<Reply>,
)
    requires
        trailing_spaces(front) >= 1,
    ensures
        adds(start(deck, front, back), replies) <= 6,
{
    lemma_adds_bounded(deck, front, back, replies);
}

/// From `s` on, every note sent conflicts, every search finds nothing and every
/// deck creation reaches the service.
pub open spec fn always_conflicts(s: CreationView, replies: Seq<Reply>) -> bool {
    forall|i: int|
        #![trigger state_after(s, replies.take(i))]
        0 <= i < replies.len() ==> {
            let stage = state_after(s, replies.take(i)).stage;
            &&& stage == Stage::AddingNotes ==> add_result(replies[i]) == AddResult::Conflict
            &&& stage == Stage::FindingNotes ==> !notes_found(replies[i])
            &&& stage == Stage::CreatingDeck ==> !(replies[i] is TransportError)
        }
}

/// How many replies a creation from `s` needs at most before it gives up on conflicts.
pub open spec fn replies_needed(s: CreationView) -> nat {
    let r = 4 * rounds_left(trailing_spaces(s.front));
    match s.stage {
        Stage::ListingDecks => r,
        Stage::CreatingDeck => (r - 1) as nat,
        Stage::FindingNotes => (r - 2) as nat,
        Stage::AddingNotes => (r - 3) as nat,
        Stage::Finished(_) => 0,
    }
}

proof fn lemma_conflicts_end(s: CreationView, replies: Seq<Reply>)
    requires
        !(s.stage is Finished),
        always_conflicts(s, replies),
        replies.len() >= replies_needed(s),
    ensures
        state_after(s, replies).stage == Stage::Finished(Outcome::AlreadyExistsElsewhereUnresolved),
    decreases replies.len(),
{
    lemma_state_after_none(s, replies);
    let s1 = next(s, replies[0]).0;
    let r1 = replies.drop_first();
    lemma_push_space(s.front);
    if s1.stage is Finished {
        lemma_finished_is_final(s1, r1);
    } else {
        assert forall|i: int| 0 <= i < r1.len() implies {
            let stage = #[trigger] state_after(s1, r1.take(i)).stage;
            &&& stage == Stage::AddingNotes ==> add_result(r1[i]) == AddResult::Conflict
            &&& stage == Stage::FindingNotes ==> !notes_found(r1[i])
            &&& stage == Stage::CreatingDeck ==> !(r1[i] is TransportError)
        } by {
            lemma_state_after_shift(s, replies, i);
            assert(r1[i] == replies[i + 1]);
        }
        lemma_conflicts_end(s1, r1);
    }
}

/// A note whose every `addNotes` attempt conflicts, while its searches find nothing
/// and its deck creations reach the service, ends as unresolved: after at most
/// 28 replies, four for each of at most seven attempts.
pub proof fn lemma_persistent_conflict_unresolved(
    deck: Seq<char>,
    front: Seq<char>,
    back: Seq<char>,
    replies: Seq<Reply>,
)
    requires
        always_conflicts(start(deck, front, back), replies),
        replies.len() >= 4 * rounds_left(trailing_spaces(front)),
    ensures
        state_after(start(deck, front, back), replies).stage == Stage::Finished(
            Outcome::AlreadyExistsElsewhereUnresolved,
        ),
        4 * rounds_left(trailing_spaces(front)) <= 28,
{
    lemma_conflicts_end(start(deck, front, back), replies);
}

} // verus!
