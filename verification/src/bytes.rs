//! Byte sequences: copies, comparison, lexicographic order and little-endian
//! numbers.

use vstd::prelude::*;

verus! {

/// Result of comparing two values of a totally ordered type.
#[derive(Clone, Copy, Debug, PartialEq, Eq, Structural)]
pub enum Order {
    Less,
    Equal,
    Greater,
}

/// `a` stands before `b` in lexicographic order.
pub open spec fn lex_lt(a: Seq<u8>, b: Seq<u8>) -> bool
    decreases a.len(),
{
    if b.len() == 0 {
        false
    } else if a.len() == 0 {
        true
    } else if a[0] != b[0] {
        a[0] < b[0]
    } else {
        lex_lt(a.drop_first(), b.drop_first())
    }
}

/// Lexicographic order is irreflexive.
pub proof fn lex_irreflexive(a: Seq<u8>)
    ensures
        !lex_lt(a, a),
    decreases a.len(),
{
    if a.len() > 0 {
        lex_irreflexive(a.drop_first());
    }
}

/// Lexicographic order is transitive.
pub proof fn lex_transitive(a: Seq<u8>, b: Seq<u8>, c: Seq<u8>)
    requires
        lex_lt(a, b),
        lex_lt(b, c),
    ensures
        lex_lt(a, c),
    decreases a.len(),
{
    if a.len() > 0 && a[0] == b[0] && b[0] == c[0] {
        lex_transitive(a.drop_first(), b.drop_first(), c.drop_first());
    }
}

/// Of two different sequences one stands before the other.
pub proof fn lex_total(a: Seq<u8>, b: Seq<u8>)
    ensures
        lex_lt(a, b) || lex_lt(b, a) || a == b,
    decreases a.len(),
{
    if a.len() > 0 && b.len() > 0 {
        if a[0] == b[0] {
            lex_total(a.drop_first(), b.drop_first());
            if a.drop_first() == b.drop_first() {
                assert(a =~= seq![a[0]] + a.drop_first());
                assert(b =~= seq![b[0]] + b.drop_first());
            }
        }
    } else if a.len() == 0 && b.len() == 0 {
        assert(a =~= b);
    }
}

/// Equal leading bytes do not decide the order.
proof fn lex_skip(a: Seq<u8>, b: Seq<u8>, n: int)
    requires
        0 <= n <= a.len(),
        n <= b.len(),
        forall|i: int| 0 <= i < n ==> a[i] == b[i],
    ensures
        lex_lt(a, b) == lex_lt(a.skip(n), b.skip(n)),
    decreases n,
{
    if n == 0 {
        assert(a.skip(0) =~= a);
        assert(b.skip(0) =~= b);
    } else {
        assert forall|i: int| 0 <= i < n - 1 implies a.drop_first()[i] == b.drop_first()[i] by {
            assert(a[i + 1] == b[i + 1]);
        }
        lex_skip(a.drop_first(), b.drop_first(), n - 1);
        assert(a.drop_first().skip(n - 1) =~= a.skip(n));
        assert(b.drop_first().skip(n - 1) =~= b.skip(n));
    }
}

/// Compares two byte sequences lexicographically.
pub fn compare_bytes(a: &[u8], b: &[u8]) -> (order: Order)
    ensures
        order == Order::Less <==> lex_lt(a@, b@),
        order == Order::Greater <==> lex_lt(b@, a@),
        order == Order::Equal <==> a@ == b@,
{
    let mut i: usize = 0;
    proof {
        lex_irreflexive(a@);
    }
    while i < a.len() && i < b.len()
        invariant
            i <= a.len(),
            i <= b.len(),
            forall|j: int| 0 <= j < i ==> a@[j] == b@[j],
        decreases a.len() - i,
    {
        if a[i] != b[i] {
            proof {
                lex_skip(a@, b@, i as int);
                lex_skip(b@, a@, i as int);
            }
            if a[i] < b[i] {
                return Order::Less;
            }
            return Order::Greater;
        }
        i += 1;
    }
    proof {
        lex_skip(a@, b@, i as int);
        lex_skip(b@, a@, i as int);
    }
    if a.len() < b.len() {
        Order::Less
    } else if b.len() < a.len() {
        Order::Greater
    } else {
        assert(a@ =~= b@);
        Order::Equal
    }
}

/// Whether two byte sequences are the same.
pub fn same_bytes(a: &[u8], b: &[u8]) -> (same: bool)
    ensures
        same == (a@ == b@),
{
    if a.len() != b.len() {
        return false;
    }
    let mut i: usize = 0;
    while i < a.len()
        invariant
            i <= a.len(),
            a.len() == b.len(),
            forall|j: int| 0 <= j < i ==> a@[j] == b@[j],
        decreases a.len() - i,
    {
        if a[i] != b[i] {
            return false;
        }
        i += 1;
    }
    assert(a@ =~= b@);
    true
}

/// Whether two 32-byte values are the same.
pub fn same_array(a: &[u8; 32], b: &[u8; 32]) -> (same: bool)
    ensures
        same == (*a == *b),
{
    let mut i: usize = 0;
    while i < 32
        invariant
            i <= 32,
            forall|j: int| 0 <= j < i ==> a@[j] == b@[j],
        decreases 32 - i,
    {
        if a[i] != b[i] {
            return false;
        }
        i += 1;
    }
    assert(*a =~= *b);
    true
}

/// The 32-byte array with the given bytes.
pub open spec fn array_of(bytes: Seq<u8>) -> [u8; 32] {
    choose|array: [u8; 32]| #[trigger] array@ == bytes
}

/// An array is determined by its bytes.
pub proof fn array_of_view(array: [u8; 32])
    ensures
        array_of(array@) == array,
{
    let chosen = array_of(array@);
    assert(chosen@ == array@);
    assert forall|i: int| 0 <= i < 32 implies chosen[i] == array[i] by {
        assert(chosen@[i] == array@[i]);
    }
    assert(chosen =~= array);
}

/// Appends `tail` to `out`.
pub fn push_bytes(out: &mut Vec<u8>, tail: &[u8])
    ensures
        final(out)@ == old(out)@ + tail@,
{
    let ghost start = out@;
    let mut i: usize = 0;
    while i < tail.len()
        invariant
            i <= tail.len(),
            out@ == start + tail@.take(i as int),
        decreases tail.len() - i,
    {
        out.push(tail[i]);
        assert(tail@.take(i + 1) =~= tail@.take(i as int).push(tail@[i as int]));
        i += 1;
    }
    assert(tail@.take(tail@.len() as int) =~= tail@);
}

/// A fresh vector with the bytes of `bytes`.
pub fn copy_bytes(bytes: &[u8]) -> (copy: Vec<u8>)
    ensures
        copy@ == bytes@,
{
    let mut out: Vec<u8> = Vec::new();
    push_bytes(&mut out, bytes);
    out
}

/// The `width` low bytes of `value`, least significant first.
pub open spec fn le_bytes(value: int, width: nat) -> Seq<u8>
    decreases width,
{
    if width == 0 {
        Seq::empty()
    } else {
        seq![(value % 256) as u8] + le_bytes(value / 256, (width - 1) as nat)
    }
}

pub proof fn le_bytes_len(value: int, width: nat)
    ensures
        le_bytes(value, width).len() == width,
    decreases width,
{
    if width > 0 {
        le_bytes_len(value / 256, (width - 1) as nat);
    }
}

/// Little-endian bytes determine the number they encode.
pub proof fn le_bytes_injective(a: int, b: int, width: nat)
    requires
        0 <= a < pow256(width),
        0 <= b < pow256(width),
        le_bytes(a, width) == le_bytes(b, width),
    ensures
        a == b,
    decreases width,
{
    if width > 0 {
        let x = le_bytes(a, width);
        let y = le_bytes(b, width);
        assert(x[0] == y[0]);
        assert(x.drop_first() =~= le_bytes(a / 256, (width - 1) as nat));
        assert(y.drop_first() =~= le_bytes(b / 256, (width - 1) as nat));
        assert(a % 256 == b % 256);
        le_bytes_injective(a / 256, b / 256, (width - 1) as nat);
    }
}

/// `256` to the power `width`.
pub open spec fn pow256(width: nat) -> int
    decreases width,
{
    if width == 0 {
        1
    } else {
        256 * pow256((width - 1) as nat)
    }
}

/// One step of the little-endian encoding, taken from the front.
proof fn le_bytes_extend(value: int, done: nat)
    requires
        0 <= value,
    ensures
        le_bytes(value, done + 1) == le_bytes(value, done).push(
            ((value / pow256(done)) % 256) as u8,
        ),
        pow256(done) > 0,
    decreases done,
{
    if done == 0 {
        assert(value / 1 == value);
        assert(le_bytes(value / 256, 0) =~= Seq::empty());
        assert(le_bytes(value, 1) =~= le_bytes(value, 0).push((value % 256) as u8));
    } else {
        le_bytes_extend(value / 256, (done - 1) as nat);
        let p = pow256((done - 1) as nat);
        assert((value / 256) / p == value / (256 * p)) by (nonlinear_arith)
            requires
                p > 0,
                value >= 0,
        ;
        assert(le_bytes(value, done + 1) =~= seq![(value % 256) as u8] + le_bytes(
            value / 256,
            done,
        ));
        assert(le_bytes(value, done) =~= seq![(value % 256) as u8] + le_bytes(
            value / 256,
            (done - 1) as nat,
        ));
        assert(le_bytes(value, done + 1) =~= le_bytes(value, done).push(
            ((value / pow256(done)) % 256) as u8,
        ));
    }
}

/// The eight bytes of `value`, least significant first.
pub fn u64_le(value: u64) -> (bytes: Vec<u8>)
    ensures
        bytes@ == le_bytes(value as int, 8),
{
    let mut out: Vec<u8> = Vec::new();
    let mut rest: u64 = value;
    let mut done: usize = 0;
    assert(le_bytes(value as int, 0) =~= Seq::empty());
    while done < 8
        invariant
            done <= 8,
            pow256(done as nat) > 0,
            rest == (value as int) / pow256(done as nat),
            out@ == le_bytes(value as int, done as nat),
        decreases 8 - done,
    {
        proof {
            le_bytes_extend(value as int, done as nat);
            let p = pow256(done as nat);
            assert((value as int / p) / 256 == value as int / (256 * p)) by (nonlinear_arith)
                requires
                    p > 0,
            ;
        }
        out.push((rest % 256) as u8);
        rest = rest / 256;
        done += 1;
    }
    out
}

/// The sixteen bytes of `value`, least significant first.
pub fn u128_le(value: u128) -> (bytes: Vec<u8>)
    ensures
        bytes@ == le_bytes(value as int, 16),
{
    let mut out: Vec<u8> = Vec::new();
    let mut rest: u128 = value;
    let mut done: usize = 0;
    assert(le_bytes(value as int, 0) =~= Seq::empty());
    while done < 16
        invariant
            done <= 16,
            pow256(done as nat) > 0,
            rest == (value as int) / pow256(done as nat),
            out@ == le_bytes(value as int, done as nat),
        decreases 16 - done,
    {
        proof {
            le_bytes_extend(value as int, done as nat);
            let p = pow256(done as nat);
            assert((value as int / p) / 256 == value as int / (256 * p)) by (nonlinear_arith)
                requires
                    p > 0,
            ;
        }
        out.push((rest % 256) as u8);
        rest = rest / 256;
        done += 1;
    }
    out
}

/// The two's complement of a signed 128-bit number.
pub open spec fn twos_complement(value: i128) -> int {
    if value >= 0 {
        value as int
    } else {
        value as int + 0x1_0000_0000_0000_0000_0000_0000_0000_0000int
    }
}

/// The sixteen bytes of `value` in two's complement, least significant first.
pub fn i128_le(value: i128) -> (bytes: Vec<u8>)
    ensures
        bytes@ == le_bytes(twos_complement(value), 16),
{
    if value >= 0 {
        u128_le(value as u128)
    } else {
        let low: i128 = (value + i128::MAX) + 1;
        let raised: u128 = low as u128 + 0x8000_0000_0000_0000_0000_0000_0000_0000u128;
        u128_le(raised)
    }
}

/// A field behind its length in eight bytes.
pub open spec fn field(value: Seq<u8>) -> Seq<u8> {
    le_bytes(value.len() as int, 8) + value
}

/// Fields one behind the other.
pub open spec fn frame(fields: Seq<Seq<u8>>) -> Seq<u8>
    decreases fields.len(),
{
    if fields.len() == 0 {
        Seq::empty()
    } else {
        field(fields[0]) + frame(fields.drop_first())
    }
}

pub proof fn frame_push(fields: Seq<Seq<u8>>, last: Seq<u8>)
    ensures
        frame(fields.push(last)) == frame(fields) + field(last),
    decreases fields.len(),
{
    let longer = fields.push(last);
    if fields.len() == 0 {
        assert(longer.drop_first() =~= Seq::<Seq<u8>>::empty());
        assert(frame(Seq::<Seq<u8>>::empty()) =~= Seq::<u8>::empty());
        assert(frame(longer) =~= frame(fields) + field(last));
    } else {
        assert(longer.drop_first() =~= fields.drop_first().push(last));
        frame_push(fields.drop_first(), last);
        assert(frame(longer) =~= frame(fields) + field(last));
    }
}

/// A frame determines its fields: no two lists of fields share one.
pub proof fn frame_injective(a: Seq<Seq<u8>>, b: Seq<Seq<u8>>)
    requires
        frame(a) == frame(b),
        forall|i: int| 0 <= i < a.len() ==> (#[trigger] a[i]).len() <= u64::MAX,
        forall|i: int| 0 <= i < b.len() ==> (#[trigger] b[i]).len() <= u64::MAX,
    ensures
        a == b,
    decreases a.len(),
{
    if a.len() == 0 || b.len() == 0 {
        if a.len() > 0 {
            le_bytes_len(a[0].len() as int, 8);
        }
        if b.len() > 0 {
            le_bytes_len(b[0].len() as int, 8);
        }
        assert(a =~= b);
    } else {
        let x = a[0];
        let y = b[0];
        le_bytes_len(x.len() as int, 8);
        le_bytes_len(y.len() as int, 8);
        assert(frame(a).take(8) =~= le_bytes(x.len() as int, 8));
        assert(frame(b).take(8) =~= le_bytes(y.len() as int, 8));
        assert(pow256(8) == 0x1_0000_0000_0000_0000int) by {
            reveal_with_fuel(pow256, 9);
        }
        le_bytes_injective(x.len() as int, y.len() as int, 8);
        assert(frame(a).subrange(8, 8int + x.len() as int) =~= x);
        assert(frame(b).subrange(8, 8int + y.len() as int) =~= y);
        assert(frame(a).skip(8int + x.len() as int) =~= frame(a.drop_first()));
        assert(frame(b).skip(8int + y.len() as int) =~= frame(b.drop_first()));
        assert forall|i: int| 0 <= i < a.drop_first().len() implies (#[trigger] a.drop_first()[i]).len()
            <= u64::MAX by {
            assert(a[i + 1].len() <= u64::MAX);
        }
        assert forall|i: int| 0 <= i < b.drop_first().len() implies (#[trigger] b.drop_first()[i]).len()
            <= u64::MAX by {
            assert(b[i + 1].len() <= u64::MAX);
        }
        frame_injective(a.drop_first(), b.drop_first());
        assert(a =~= seq![x] + a.drop_first());
        assert(b =~= seq![y] + b.drop_first());
    }
}

/// Appends one field to a frame that stands behind `prefix`.
pub fn push_field(
    out: &mut Vec<u8>,
    value: &[u8],
    Ghost(prefix): Ghost<Seq<u8>>,
    Ghost(fields): Ghost<Seq<Seq<u8>>>,
)
    requires
        old(out)@ == prefix + frame(fields),
    ensures
        final(out)@ == prefix + frame(fields.push(value@)),
{
    let length = u64_le(value.len() as u64);
    push_bytes(out, length.as_slice());
    push_bytes(out, value);
    proof {
        frame_push(fields, value@);
        assert(out@ =~= prefix + frame(fields.push(value@)));
    }
}

} // verus!
