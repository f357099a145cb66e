//! The consumer-supplied token sink: the emitter hands it one token at a
//! time, in display order, and stops at the first token it refuses.

use vstd::prelude::*;

use crate::model::DiffText;
use crate::model::TokenV;
use crate::model::tokens_view;

verus! {

/// A destination for display tokens.
///
/// The emitter calls [`TokenSink::push_token`] once per token and only
/// proceeds once the sink returns. A sink is free to refuse a token; the
/// emitter then stops and reports the failure, and the tokens already
/// accepted stand as delivered.
pub trait TokenSink {
    /// The tokens this sink has accepted so far, in order.
    spec fn sunk(&self) -> Seq<TokenV>;

    /// Whether this sink has ever refused a token.
    spec fn failed(&self) -> bool;

    /// Accepts or refuses one token.
    fn push_token(&mut self, t: DiffText) -> (r: Result<(), ()>)
        ensures
            r is Ok ==> final(self).sunk() == old(self).sunk().push(t@) && final(self).failed()
                == old(self).failed(),
            r is Err ==> final(self).sunk() == old(self).sunk() && final(self).failed(),
    ;
}

/// A sink that accepts every token into a vector.
pub struct VecSink {
    pub tokens: Vec<DiffText>,
}

impl VecSink {
    /// An empty sink.
    pub fn new() -> (r: VecSink)
        ensures
            r.sunk() =~= Seq::<TokenV>::empty(),
            !r.failed(),
    {
        VecSink { tokens: Vec::new() }
    }
}

impl TokenSink for VecSink {
    open spec fn sunk(&self) -> Seq<TokenV> {
        tokens_view(self.tokens@)
    }

    open spec fn failed(&self) -> bool {
        false
    }

    fn push_token(&mut self, t: DiffText) -> (r: Result<(), ()>)
    {
        proof {
            crate::model::lemma_tokens_view_push(self.tokens@, t);
        }
        self.tokens.push(t);
        Ok(())
    }
}

/// Hands each token of `toks` to the sink in order, stopping at the first
/// refusal; reports how the sink's accepted tokens grew.
pub(crate) fn feed_tokens<S: TokenSink>(cb: &mut S, toks: &Vec<DiffText>) -> (r: Result<(), ()>)
    ensures
        r is Ok ==> final(cb).sunk() == old(cb).sunk() + tokens_view(toks@) && final(cb).failed()
            == old(cb).failed(),
        r is Err ==> final(cb).failed() && exists|k: int|
            0 <= k < tokens_view(toks@).len() && final(cb).sunk() == old(cb).sunk() + tokens_view(
                toks@,
            ).take(k),
{
    let n = toks.len();
    let mut i: usize = 0;
    while i < n
        invariant
            n == toks@.len(),
            0 <= i <= n,
            cb.sunk() == old(cb).sunk() + tokens_view(toks@).take(i as int),
            cb.failed() == old(cb).failed(),
        decreases n - i,
    {
        let t = toks[i].dup();
        let ghost prev = cb.sunk();
        match cb.push_token(t) {
            Ok(()) => {
                proof {
                    assert(tokens_view(toks@).take(i + 1) =~= tokens_view(toks@).take(
                        i as int,
                    ).push(toks@[i as int]@));
                    assert(old(cb).sunk() + tokens_view(toks@).take(i + 1) =~= prev.push(
                        toks@[i as int]@,
                    ));
                }
            },
            Err(()) => {
                proof {
                    assert(0 <= i < tokens_view(toks@).len());
                }
                return Err(());
            },
        }
        i = i + 1;
    }
    proof {
        assert(tokens_view(toks@).take(n as int) =~= tokens_view(toks@));
    }
    Ok(())
}

} // verus!
