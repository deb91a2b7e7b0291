//! Source revision tokens are observed inputs, not strategy math. While a
//! recording scope is open every token handed out by the live allocator is
//! kept; while a replay scope is open the recorded tokens are handed out again
//! in order and the live allocator is never asked.
//!
//! The tape slot is an explicit value owned by the caller (one per verifier
//! thread), so scopes nest exactly as they do on a thread-local slot.
use vstd::prelude::*;

verus! {

/// What an open scope does with tokens.
pub enum TapeState {
    Record(Vec<u64>),
    Replay { tokens: Vec<u64>, next: usize, missing: bool },
}

/// Mathematical view of an open scope.
pub ghost enum TapeView {
    Record(Seq<u64>),
    Replay { tokens: Seq<u64>, next: nat, missing: bool },
}

impl TapeState {
    pub open spec fn view(self) -> TapeView {
        match self {
            TapeState::Record(v) => TapeView::Record(v@),
            TapeState::Replay { tokens, next, missing } => TapeView::Replay {
                tokens: tokens@,
                next: next as nat,
                missing,
            },
        }
    }
}

/// The token a replay tape hands out next: the recorded one, or 0 past the end.
pub open spec fn replay_answer(t: TapeView) -> u64 {
    match t {
        TapeView::Replay { tokens, next, .. } => if next < tokens.len() {
            tokens[next as int]
        } else {
            0
        },
        _ => 0,
    }
}

/// A replay tape after it handed out one token: one position further, or
/// marked as overrun past the end.
pub open spec fn replay_next(t: TapeView) -> TapeView {
    match t {
        TapeView::Replay { tokens, next, missing } => if next < tokens.len() {
            TapeView::Replay { tokens, next: next + 1, missing }
        } else {
            TapeView::Replay { tokens, next, missing: true }
        },
        _ => t,
    }
}

/// A replay tape after `k` tokens were handed out.
pub open spec fn replay_after(t: TapeView, k: nat) -> TapeView
    decreases k,
{
    if k == 0 {
        t
    } else {
        replay_next(replay_after(t, (k - 1) as nat))
    }
}

/// The slot that holds the scope open on one thread, if any.
pub struct TokenTape {
    state: Option<TapeState>,
}

impl TokenTape {
    pub closed spec fn view(self) -> Option<TapeView> {
        match self.state {
            Some(s) => Some(s.view()),
            None => None,
        }
    }

    /// A slot with no scope open.
    pub fn new() -> (r: TokenTape)
        ensures
            r@ is None,
    {
        TokenTape { state: None }
    }
}

/// The next token. Without a scope the live allocator answers; a recording
/// scope keeps its answer; a replay scope answers from the tape (0, and the
/// tape marked as overrun, once the tape is exhausted) without asking it.
/// Past the end the position no longer moves: an overrun tape can only fail.
pub fn token(tape: &mut TokenTape, live: impl FnOnce() -> u64) -> (r: u64)
    requires
        !(old(tape)@ matches Some(TapeView::Replay { .. })) ==> live.requires(()),
    ensures
        match old(tape)@ {
            None => live.ensures((), r) && final(tape)@ == old(tape)@,
            Some(TapeView::Record(v)) => live.ensures((), r) && final(tape)@ == Some(TapeView::Record(v.push(r))),
            Some(t) => (t is Replay ==> r == replay_answer(t) && final(tape)@ == Some(replay_next(t))),
        },
{
    match &mut tape.state {
        None => live(),
        Some(TapeState::Record(v)) => {
            let value = live();
            v.push(value);
            value
        },
        Some(TapeState::Replay { tokens, next, missing }) => {
            if *next < tokens.len() {
                let value = tokens[*next];
                *next = *next + 1;
                value
            } else {
                *missing = true;
                0
            }
        },
    }
}

/// A token scope opened on a tape. A scope opened while another one is open
/// on the same tape is nested: it leaves the open one in place and can only
/// fail.
pub struct Scope {
    nested: bool,
}

/// Outcome owed by `Scope::finish` for a top-level scope, over the tape it
/// closes.
pub open spec fn finish_outcome(t: Option<TapeView>) -> Option<Seq<u64>> {
    match t {
        Some(TapeView::Record(v)) => Some(v),
        Some(TapeView::Replay { tokens, next, missing }) => if !missing && next == tokens.len() {
            Some(tokens)
        } else {
            None
        },
        None => None,
    }
}

impl Scope {
    pub closed spec fn is_nested(self) -> bool {
        self.nested
    }

    fn begin(tape: &mut TokenTape, state: TapeState) -> (r: Scope)
        ensures
            r.is_nested() == (old(tape)@ is Some),
            old(tape)@ is Some ==> final(tape)@ == old(tape)@,
            old(tape)@ is None ==> final(tape)@ == Some(state.view()),
    {
        if tape.state.is_some() {
            Scope { nested: true }
        } else {
            tape.state = Some(state);
            Scope { nested: false }
        }
    }

    /// Opens a recording scope.
    pub fn record(tape: &mut TokenTape) -> (r: Scope)
        ensures
            r.is_nested() == (old(tape)@ is Some),
            old(tape)@ is Some ==> final(tape)@ == old(tape)@,
            old(tape)@ is None ==> final(tape)@ == Some(TapeView::Record(Seq::<u64>::empty())),
    {
        Scope::begin(tape, TapeState::Record(Vec::new()))
    }

    /// Opens a replay scope over recorded tokens.
    pub fn replay(tape: &mut TokenTape, tokens: Vec<u64>) -> (r: Scope)
        ensures
            r.is_nested() == (old(tape)@ is Some),
            old(tape)@ is Some ==> final(tape)@ == old(tape)@,
            old(tape)@ is None ==> final(tape)@ == Some(fresh_replay(tokens@)),
    {
        Scope::begin(tape, TapeState::Replay { tokens, next: 0, missing: false })
    }

    /// Closes the scope. A nested scope fails and leaves the tape alone. A
    /// top-level scope empties the tape and gives back the recorded tokens, or
    /// the replayed tokens when every one of them was consumed and no more.
    pub fn finish(self, tape: &mut TokenTape) -> (r: Result<Vec<u64>, String>)
        ensures
            self.is_nested() ==> final(tape)@ == old(tape)@,
            self.is_nested() ==> (r matches Err(e) && e@ == "nested source token scope"@),
            !self.is_nested() ==> final(tape)@ is None,
            !self.is_nested() ==> match finish_outcome(old(tape)@) {
                Some(t) => (r matches Ok(v) && v@ == t),
                None => (r matches Err(e) && e@ == "source revision token transcript mismatch"@),
            },
    {
        if self.nested {
            proof {
                reveal_strlit("nested source token scope");
            }
            return Err(String::from_str("nested source token scope"));
        }
        let taken = tape.state.take();
        proof {
            reveal_strlit("source revision token transcript mismatch");
        }
        match taken {
            Some(TapeState::Record(tokens)) => Ok(tokens),
            Some(TapeState::Replay { tokens, next, missing }) => {
                if !missing && next == tokens.len() {
                    Ok(tokens)
                } else {
                    Err(String::from_str("source revision token transcript mismatch"))
                }
            },
            None => Err(String::from_str("source revision token transcript mismatch")),
        }
    }

    /// Drops the scope without finishing it: a top-level scope empties the
    /// tape, a nested one leaves it alone.
    pub fn abandon(self, tape: &mut TokenTape)
        ensures
            self.is_nested() ==> final(tape)@ == old(tape)@,
            !self.is_nested() ==> final(tape)@ is None,
    {
        if !self.nested {
            tape.state = None;
        }
    }
}

/// A replay tape that has handed out nothing yet.
pub open spec fn fresh_replay(tokens: Seq<u64>) -> TapeView {
    TapeView::Replay { tokens, next: 0, missing: false }
}

/// Replaying a tape hands back exactly the recorded tokens, in order: the
/// `j`-th token asked for is the `j`-th token recorded, and the scope finishes
/// with the recorded tokens once all of them, and no more, were asked for.
/// Asking for fewer or for more makes the finish fail.
pub proof fn replay_gives_back_the_recording(tokens: Seq<u64>)
    ensures
        forall|j: nat| j < tokens.len() ==> #[trigger] replay_answer(
            replay_after(fresh_replay(tokens), j),
        ) == tokens[j as int],
        finish_outcome(Some(replay_after(fresh_replay(tokens), tokens.len())))
            == Some(tokens),
        forall|k: nat| k < tokens.len() ==> (#[trigger] finish_outcome(
            Some(replay_after(fresh_replay(tokens), k)),
        ) is None),
        (finish_outcome(Some(replay_after(fresh_replay(tokens), tokens.len() + 1))) is None),
{
    let start = fresh_replay(tokens);
    assert forall|k: nat| k <= tokens.len() implies #[trigger] replay_after(start, k)
        == TapeView::Replay { tokens, next: k, missing: false } by {
        lemma_replay_prefix(tokens, k);
    }
    assert(replay_after(start, tokens.len()) == TapeView::Replay { tokens, next: tokens.len(), missing: false });
    assert forall|j: nat| j < tokens.len() implies #[trigger] replay_answer(replay_after(start, j)) == tokens[j as int] by {
        assert(replay_after(start, j) == TapeView::Replay { tokens, next: j, missing: false });
    }
    assert forall|k: nat| k < tokens.len() implies #[trigger] finish_outcome(Some(replay_after(start, k))) is None by {
        assert(replay_after(start, k) == TapeView::Replay { tokens, next: k, missing: false });
    }
    assert(replay_after(start, tokens.len() + 1) == replay_next(replay_after(start, tokens.len())));
}

proof fn lemma_replay_prefix(tokens: Seq<u64>, k: nat)
    requires
        k <= tokens.len(),
    ensures
        replay_after(fresh_replay(tokens), k) == (TapeView::Replay { tokens, next: k, missing: false }),
    decreases k,
{
    if k > 0 {
        lemma_replay_prefix(tokens, (k - 1) as nat);
    }
}

} // verus!
