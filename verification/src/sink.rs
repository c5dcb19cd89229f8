//! Output sink: FIFO delivery of decoded application payloads to the
//! owning caller.

use vstd::prelude::*;
use std::collections::VecDeque;

verus! {

/// The text the transport's raw bytes decode to. This is the result of
/// `String::from_utf8_lossy`, which depends on the bytes alone.
pub uninterp spec fn utf8_lossy(b: Seq<u8>) -> Seq<char>;

/// Relies on `String::from_utf8_lossy`: the decoded text (invalid
/// sequences replaced) is a function of the bytes alone.
#[verifier::external_body]
fn lossy_decode(bytes: &[u8]) -> (r: String)
    ensures
        r@ == utf8_lossy(bytes@),
{
    String::from_utf8_lossy(bytes).into_owned()
}

/// FIFO queue of decoded application payloads. The transport engine's
/// message callback pushes; the owning caller drains. The queue is
/// unbounded — this implementation chooses growth over dropping, so a
/// push never fails and never blocks the pusher.
pub struct OutputSink {
    queue: VecDeque<String>,
}

impl View for OutputSink {
    type V = Seq<Seq<char>>;

    closed spec fn view(&self) -> Seq<Seq<char>> {
        self.queue@.map_values(|s: String| s@)
    }
}

impl OutputSink {
    /// An empty sink.
    pub fn new() -> (r: Self)
        ensures
            r@ == Seq::<Seq<char>>::empty(),
    {
        let r = OutputSink { queue: VecDeque::new() };
        proof {
            assert(r@ =~= Seq::<Seq<char>>::empty());
        }
        r
    }

    /// Decode a raw message from the transport engine and append it.
    pub fn push_raw(&mut self, bytes: &[u8])
        ensures
            final(self)@ == old(self)@.push(utf8_lossy(bytes@)),
    {
        let s = lossy_decode(bytes);
        let ghost sv = s@;
        self.queue.push_back(s);
        proof {
            assert(self@ =~= old(self)@.push(sv));
        }
    }

    /// Append an already decoded payload.
    pub fn push_text(&mut self, text: String)
        ensures
            final(self)@ == old(self)@.push(text@),
    {
        let ghost tv = text@;
        self.queue.push_back(text);
        proof {
            assert(self@ =~= old(self)@.push(tv));
        }
    }

    /// Take the oldest payload, if any: delivery is first in, first out.
    pub fn take_next(&mut self) -> (r: Option<String>)
        ensures
            old(self)@.len() == 0 ==> r is None && final(self)@ == old(self)@,
            old(self)@.len() > 0 ==> {
                &&& r matches Some(s) && s@ == old(self)@[0]
                &&& final(self)@ == old(self)@.drop_first()
            },
    {
        match self.queue.pop_front() {
            Some(s) => {
                proof {
                    assert(self@ =~= old(self)@.drop_first());
                }
                Some(s)
            },
            None => None,
        }
    }

    /// How many payloads are waiting.
    pub fn len(&self) -> (r: usize)
        ensures
            r == self@.len(),
    {
        self.queue.len()
    }
}

} // verus!
