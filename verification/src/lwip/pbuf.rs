use vstd::prelude::*;
use vstd::math::min;
use crate::io::traits::Read;
use crate::lwip::netconn::error::NetconnErr;

verus! {

/// A received buffer chain: a sequence of independently delivered byte
/// segments representing one logical receive event, owned as a unit.
///
/// The native layer hands the chain over as linked segments; here it is
/// held as an owned list of segment buffers with an explicit `disposed`
/// flag, so the chain is freed exactly once — either on natural
/// exhaustion during traversal or on an explicit early close, in which
/// case the undelivered remainder is discarded.
pub struct TcpPbuf {
    segments: Vec<Vec<u8>>,
    disposed: bool,
    taken: Ghost<Seq<u8>>,
}

impl TcpPbuf {
    /// The byte segments still held by the chain, in delivery order.
    pub closed spec fn chain(&self) -> Seq<Seq<u8>> {
        self.segments@.map_values(|s: Vec<u8>| s@)
    }

    /// True once the chain has been freed; nothing is delivered after that.
    pub closed spec fn is_disposed(&self) -> bool {
        self.disposed
    }

    /// The bytes this chain can still deliver: its segments in order,
    /// or nothing once it has been disposed.
    pub open spec fn readable(&self) -> Seq<u8> {
        if self.is_disposed() {
            Seq::empty()
        } else {
            self.chain().flatten()
        }
    }

    /// The bytes the copying reads over this chain have delivered so
    /// far, in order.
    pub closed spec fn delivered_bytes(&self) -> Seq<u8> {
        self.taken@
    }

    /// Wraps the segments of one receive event.
    pub fn new(segments: Vec<Vec<u8>>) -> (p: Self)
        ensures
            !p.is_disposed(),
            p.chain() == segments@.map_values(|s: Vec<u8>| s@),
            p.delivered_bytes() == Seq::<u8>::empty(),
    {
        TcpPbuf { segments, disposed: false, taken: Ghost(Seq::empty()) }
    }

    /// Frees the chain: any undelivered segments are discarded. Safe to
    /// call again; a second call changes nothing further.
    pub fn close(&mut self)
        ensures
            final(self).is_disposed(),
            final(self).chain().len() == 0,
            final(self).delivered_bytes() == old(self).delivered_bytes(),
    {
        self.segments.clear();
        self.disposed = true;
    }

    /// Yields the next segment and advances the cursor. On a chain whose
    /// segments have run out, frees the chain and yields nothing; once
    /// the chain is disposed, keeps yielding nothing.
    pub fn next(&mut self) -> (r: Option<Vec<u8>>)
        ensures
            old(self).is_disposed() ==> r is None && *final(self) == *old(self),
            !old(self).is_disposed() && old(self).chain().len() == 0 ==> r is None
                && final(self).is_disposed() && final(self).chain().len() == 0,
            !old(self).is_disposed() && old(self).chain().len() > 0 ==> {
                &&& r matches Some(seg) && seg@ == old(self).chain()[0]
                &&& !final(self).is_disposed()
                &&& final(self).chain() == old(self).chain().drop_first()
            },
            final(self).delivered_bytes() == old(self).delivered_bytes(),
    {
        if self.disposed {
            return None;
        }
        if self.segments.len() == 0 {
            self.close();
            return None;
        }
        let ghost pre = *self;
        let seg = self.segments.remove(0);
        proof {
            assert(self.chain() =~= pre.chain().drop_first());
        }
        Some(seg)
    }

    /// The copying read over the chain: fills `buf` from the front of the
    /// chain, segment by segment, and frees the chain in the same call.
    /// If `buf` fills before the chain is drained, the rest of the chain
    /// is discarded, never copied. Returns the number of bytes copied:
    /// exactly the destination length or the chain's readable length,
    /// whichever is smaller. A disposed chain delivers nothing and the
    /// destination is left as it was.
    pub fn read_into(&mut self, buf: &mut Vec<u8>) -> (n: usize)
        ensures
            final(buf)@.len() == old(buf)@.len(),
            n == min(old(buf)@.len() as int, old(self).readable().len() as int),
            final(buf)@ == old(self).readable().take(n as int) + old(buf)@.skip(n as int),
            final(self).is_disposed(),
            final(self).delivered_bytes() == old(self).delivered_bytes() + old(self).readable().take(n as int),
    {
        let ghost readable0 = self.readable();
        let ghost buf0 = buf@;
        let ghost taken0 = self.delivered_bytes();
        let buf_len = buf.len();
        let mut total: usize = 0;
        loop
            invariant
                total <= buf_len,
                total <= readable0.len(),
                buf@.len() == buf_len,
                buf0.len() == buf_len,
                buf@ == readable0.take(total as int) + buf0.skip(total as int),
                self.readable() == readable0.skip(total as int) || total == buf_len,
                self.delivered_bytes() == taken0,
            ensures
                total == min(buf0.len() as int, readable0.len() as int),
                buf@.len() == buf_len,
                buf@ == readable0.take(total as int) + buf0.skip(total as int),
                self.is_disposed(),
                self.delivered_bytes() == taken0,
            decreases self.chain().len() + 1,
        {
            let ghost pre = *self;
            match self.next() {
                None => {
                    proof {
                        if pre.readable() =~= readable0.skip(total as int) {
                            // The chain ran out: everything readable was copied.
                            assert(readable0.skip(total as int).len() == 0);
                            assert(total == readable0.len());
                        }
                        assert(self.readable() =~= readable0.skip(total as int) || total
                            == buf_len);
                    }
                    break ;
                },
                Some(chunk) => {
                    let remaining_space = buf_len - total;
                    if remaining_space == 0 {
                        self.close();
                        break ;
                    }
                    // The destination is not yet full, so the chain head still
                    // lines up with the uncopied part of the readable bytes.
                    let ghost rest = pre.chain().drop_first().flatten();
                    proof {
                        assert(pre.readable() == readable0.skip(total as int));
                        reveal_with_fuel(Seq::<_>::flatten, 2);
                        assert(pre.chain().flatten() == pre.chain()[0] + rest);
                        assert(readable0.skip(total as int) == chunk@ + rest);
                        assert(chunk@.len() + rest.len() == readable0.len() - total);
                        assert forall|j: int|
                            0 <= j < chunk@.len() implies chunk@[j] == readable0[total + j] by {
                            assert(chunk@[j] == (chunk@ + rest)[j]);
                            assert(readable0.skip(total as int)[j] == readable0[total + j]);
                        }
                    }
                    let copy_len = if chunk.len() < remaining_space {
                        chunk.len()
                    } else {
                        remaining_space
                    };
                    let mut i: usize = 0;
                    while i < copy_len
                        invariant
                            i <= copy_len,
                            copy_len <= chunk@.len(),
                            total + copy_len <= buf_len,
                            total + copy_len <= readable0.len(),
                            buf@.len() == buf_len,
                            buf0.len() == buf_len,
                            forall|j: int|
                                0 <= j < chunk@.len() ==> chunk@[j] == readable0[total + j],
                            buf@ == readable0.take((total + i) as int) + buf0.skip(
                                (total + i) as int,
                            ),
                        decreases copy_len - i,
                    {
                        let b = chunk[i];
                        buf.set(total + i, b);
                        proof {
                            assert(b == readable0[total + i]);
                            assert(buf@ =~= readable0.take(total + i + 1) + buf0.skip(
                                total + i + 1,
                            ));
                        }
                        i += 1;
                    }
                    proof {
                        if copy_len == chunk@.len() {
                            // A fully copied segment keeps the chain head aligned
                            // with the uncopied readable bytes.
                            assert(self.readable() == rest);
                            assert(rest =~= readable0.skip(total as int).skip(chunk@.len() as int));
                            vstd::seq_lib::lemma_seq_skip_of_skip(
                                readable0,
                                total as int,
                                chunk@.len() as int,
                            );
                            assert(self.readable() == readable0.skip(total + chunk@.len()));
                        }
                    }
                    total = total + copy_len;
                },
            }
        }
        self.taken = Ghost(self.taken@ + readable0.take(total as int));
        total
    }
}

/// A freed chain never re-delivers: once a chain is disposed — by a
/// drained traversal, a copying read, or an explicit close — it has no
/// readable bytes left, so every later read over it delivers exactly
/// zero bytes and leaves its destination untouched.
pub proof fn lemma_disposed_chain_never_redelivers(p: TcpPbuf)
    requires
        p.is_disposed(),
    ensures
        p.readable().len() == 0,
{
}

impl Read for TcpPbuf {
    type ReadError = NetconnErr;

    open spec fn delivered(&self) -> Seq<u8> {
        self.delivered_bytes()
    }

    open spec fn exhausted(&self) -> bool {
        self.readable().len() == 0
    }

    /// The copying read of the chain as a capability: a read never
    /// fails, one call drains the chain into the destination and frees
    /// it, and it delivers exactly the smaller of the chain's readable
    /// length and the destination's length — the chain's byte prefix of
    /// that length, in order, at the front of the destination.
    fn read(&mut self, buf: &mut Vec<u8>) -> (r: Result<usize, NetconnErr>)
        ensures
            r is Ok,
            r matches Ok(n) ==> n == min(
                old(buf)@.len() as int,
                old(self).readable().len() as int,
            ) && final(buf)@ == old(self).readable().take(n as int) + old(buf)@.skip(n as int),
            final(self).is_disposed(),
    {
        let ghost pre = *self;
        let ghost buf_pre = buf@;
        let n = self.read_into(buf);
        proof {
            // The chain's delivered prefix is what now sits at the
            // destination's front.
            assert(pre.readable().take(n as int) =~= buf@.take(n as int));
            assert(buf@.skip(n as int) =~= buf_pre.skip(n as int));
        }
        Ok(n)
    }
}

} // verus!
