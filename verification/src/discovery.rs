//! Peer discovery support.
//!
//! Discovery-based transports find the other nodes of the run by probing
//! one well-known resource per node id and reading the id back out of the
//! reply's payload. The probing order and the payload encoding are the
//! node's own logic and live here; issuing the probes is the transport's
//! business.

use vstd::prelude::*;
use crate::control::NodeId;
use crate::errors::CommunicationError;

verus! {

/// The node ids a node probes for: every id of `[0, total)` except its
/// own, in increasing order.
pub open spec fn spec_peers(total: int, node_id: int) -> Seq<NodeId> {
    Seq::new(
        (if node_id < total {
            total - 1
        } else {
            total
        }) as nat,
        |k: int|
            (if k < node_id {
                k
            } else {
                k + 1
            }) as usize,
    )
}

/// The ids of every other node of the run, in increasing order.
pub fn get_nodes_ids(total_nodes: usize, node_id: NodeId) -> (r: Vec<NodeId>)
    ensures
        r@ == spec_peers(total_nodes as int, node_id as int),
{
    let ghost peers = spec_peers(total_nodes as int, node_id as int);
    let mut nodes: Vec<NodeId> = Vec::new();
    let mut n: usize = 0;
    while n < total_nodes
        invariant
            n <= total_nodes,
            peers == spec_peers(total_nodes as int, node_id as int),
            nodes@.len() == if n as int <= node_id as int {
                n as int
            } else {
                n - 1
            },
            forall|k: int| 0 <= k < nodes@.len() ==> nodes@[k] == peers[k],
        decreases total_nodes - n,
    {
        if n != node_id {
            nodes.push(n);
        }
        n = n + 1;
    }
    proof {
        assert(nodes@ =~= peers);
    }
    nodes
}

/// An ASCII decimal digit.
pub open spec fn is_ascii_digit(b: u8) -> bool {
    48 <= b && b <= 57
}

/// Every byte of the sequence is an ASCII decimal digit.
pub open spec fn all_digits(s: Seq<u8>) -> bool {
    forall|i: int| 0 <= i < s.len() ==> is_ascii_digit(#[trigger] s[i])
}

/// The number a sequence of decimal digits denotes, most significant
/// first.
pub open spec fn digits_value(s: Seq<u8>) -> int
    decreases s.len(),
{
    if s.len() == 0 {
        0
    } else {
        digits_value(s.drop_last()) * 10 + (s.last() - 48)
    }
}

/// The canonical decimal digits of a number: no sign, no leading zero
/// except for the number zero itself.
pub open spec fn dec_digits(n: nat) -> Seq<u8>
    decreases n,
{
    if n < 10 {
        seq![(n + 48) as u8]
    } else {
        dec_digits(n / 10).push(((n % 10) + 48) as u8)
    }
}

/// A digit string denotes a non-negative number.
pub proof fn lemma_digits_value_nonneg(s: Seq<u8>)
    requires
        all_digits(s),
    ensures
        digits_value(s) >= 0,
    decreases s.len(),
{
    if s.len() > 0 {
        lemma_digits_value_nonneg(s.drop_last());
    }
}

/// Extending a digit string to the right never shrinks its value.
pub proof fn lemma_digits_value_take_le(s: Seq<u8>, k: int)
    requires
        all_digits(s),
        0 <= k <= s.len(),
    ensures
        digits_value(s.take(k)) <= digits_value(s),
    decreases s.len(),
{
    if k == s.len() {
        assert(s.take(k) =~= s);
    } else {
        assert(s.drop_last().take(k) =~= s.take(k));
        assert(all_digits(s.drop_last()));
        lemma_digits_value_take_le(s.drop_last(), k);
        lemma_digits_value_nonneg(s.drop_last());
    }
}

/// The canonical digits of a number denote that number: encoding then
/// decoding a node id is the identity.
pub proof fn lemma_dec_digits_round_trip(n: nat)
    ensures
        dec_digits(n).len() >= 1,
        all_digits(dec_digits(n)),
        digits_value(dec_digits(n)) == n,
    decreases n,
{
    if n < 10 {
        assert(dec_digits(n).drop_last() =~= Seq::<u8>::empty());
        assert(((n + 48) as u8) as int == n + 48);
        assert(dec_digits(n).len() == 1);
        assert(dec_digits(n).last() == (n + 48) as u8);
        assert(digits_value(Seq::<u8>::empty()) == 0);
        assert(digits_value(dec_digits(n)) == digits_value(dec_digits(n).drop_last()) * 10 + (
        dec_digits(n).last() - 48));
    } else {
        lemma_dec_digits_round_trip(n / 10);
        assert(dec_digits(n).drop_last() =~= dec_digits(n / 10));
        assert(dec_digits(n).last() == ((n % 10) + 48) as u8);
        assert(digits_value(dec_digits(n)) == digits_value(dec_digits(n / 10)) * 10 + ((((n % 10)
            + 48) as u8) - 48));
        assert((((n % 10) + 48) as u8) as int == (n % 10) + 48) by {
            assert(n % 10 < 10);
        }
        assert(digits_value(dec_digits(n)) == ((n / 10) as int) * 10 + ((n % 10) as int));
        assert(((n / 10) as int) * 10 + ((n % 10) as int) == n as int) by {
            vstd::arithmetic::div_mod::lemma_fundamental_div_mod(n as int, 10);
            assert((n as int) / 10 == (n / 10) as int);
            assert((n as int) % 10 == (n % 10) as int);
        }
    }
}

/// Encodes a node id as the payload of a discovery reply: its decimal
/// digits in ASCII.
pub fn format_node_id(id: usize) -> (r: Vec<u8>)
    ensures
        r@ == dec_digits(id as nat),
{
    let mut rev: Vec<u8> = Vec::new();
    let mut x: usize = id;
    rev.push((x % 10) as u8 + 48);
    x = x / 10;
    proof {
        if id >= 10 {
            assert(dec_digits(id as nat) =~= dec_digits((id / 10) as nat) + rev@.reverse());
        } else {
            assert(dec_digits(id as nat) =~= rev@.reverse());
        }
    }
    while x > 0
        invariant
            rev@.len() >= 1,
            if x > 0 {
                dec_digits(id as nat) == dec_digits(x as nat) + rev@.reverse()
            } else {
                dec_digits(id as nat) == rev@.reverse()
            },
        decreases x,
    {
        let ghost pre = rev@;
        rev.push((x % 10) as u8 + 48);
        proof {
            assert(rev@.reverse() =~= seq![(((x as int) % 10) + 48) as u8] + pre.reverse());
            if x >= 10 {
                assert(dec_digits(x as nat).drop_last() =~= dec_digits((x / 10) as nat));
                assert(dec_digits((x / 10) as nat) + rev@.reverse() =~= dec_digits(x as nat)
                    + pre.reverse());
            } else {
                assert(dec_digits(x as nat) =~= seq![(((x as int) % 10) + 48) as u8]);
                assert(rev@.reverse() =~= dec_digits(x as nat) + pre.reverse());
            }
        }
        x = x / 10;
    }
    let mut r: Vec<u8> = Vec::new();
    let n = rev.len();
    let mut i: usize = n;
    while i > 0
        invariant
            i <= n,
            n as int == rev@.len(),
            r@.len() + i as int == rev@.len(),
            forall|k: int| 0 <= k < r@.len() ==> r@[k] == rev@[rev@.len() - 1 - k],
        decreases i,
    {
        i = i - 1;
        r.push(rev[i]);
    }
    proof {
        assert(r@ =~= rev@.reverse());
    }
    r
}

/// Decodes a discovery reply's payload back into a node id. Succeeds
/// exactly on a non-empty all-digit payload whose value fits the id type;
/// anything else cannot be a peer's reply and is rejected as
/// undeserializable.
pub fn parse_node_id(payload: &Vec<u8>) -> (r: Result<NodeId, CommunicationError>)
    ensures
        if payload@.len() >= 1 && all_digits(payload@) && digits_value(payload@) <= usize::MAX {
            r == Ok::<NodeId, CommunicationError>(digits_value(payload@) as usize)
        } else {
            r == Err::<NodeId, CommunicationError>(CommunicationError::DeserializeNotImplemented)
        },
{
    let n = payload.len();
    if n == 0 {
        return Err(CommunicationError::DeserializeNotImplemented);
    }
    let mut acc: usize = 0;
    let mut i: usize = 0;
    while i < n
        invariant
            i <= n,
            n as int == payload@.len(),
            all_digits(payload@.take(i as int)),
            acc as int == digits_value(payload@.take(i as int)),
        decreases n - i,
    {
        let b = payload[i];
        if b < 48 || b > 57 {
            return Err(CommunicationError::DeserializeNotImplemented);
        }
        let d = (b - 48) as usize;
        proof {
            assert(payload@.take(i + 1).drop_last() =~= payload@.take(i as int));
        }
        let t = match acc.checked_mul(10) {
            Some(t) => t,
            None => {
                proof {
                    if all_digits(payload@) {
                        lemma_digits_value_take_le(payload@, i + 1);
                    }
                }
                return Err(CommunicationError::DeserializeNotImplemented);
            },
        };
        let v = match t.checked_add(d) {
            Some(v) => v,
            None => {
                proof {
                    if all_digits(payload@) {
                        lemma_digits_value_take_le(payload@, i + 1);
                    }
                }
                return Err(CommunicationError::DeserializeNotImplemented);
            },
        };
        acc = v;
        i = i + 1;
    }
    proof {
        assert(payload@.take(n as int) =~= payload@);
    }
    Ok(acc)
}

} // verus!
