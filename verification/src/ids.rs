//! Record identifiers: time-ordered version 7 UUIDs, held as their 128-bit value.

use vstd::prelude::*;
use crate::text::push_char;

verus! {

/// The version nibble of a UUID held as a big-endian 128-bit value (bits 76..80).
pub open spec fn uuid_version(id: u128) -> u128 {
    (id >> 76u128) & 0xf
}

/// The two variant bits of a UUID held as a big-endian 128-bit value (bits 62..64).
pub open spec fn uuid_variant(id: u128) -> u128 {
    (id >> 62u128) & 0x3
}

/// A version 7 UUID of the RFC 4122 / RFC 9562 variant.
pub open spec fn is_v7(id: u128) -> bool {
    uuid_version(id) == 7 && uuid_variant(id) == 2
}

/// `uuid::Uuid::now_v7`, read back with `Uuid::as_u128`.
///
/// The crate documents `now_v7` as creating a version 7 UUID from the current time and
/// random bits; its source sets the version nibble to 7 and the variant bits to `10`.
/// Nothing else is claimed: the value depends on the clock and on chance.
#[verifier::external_body]
pub(crate) fn fresh_id() -> (id: u128)
    ensures
        is_v7(id),
{
    uuid::Uuid::now_v7().as_u128()
}

/// The `k`-th hexadecimal digit of `id`, counting from the most significant one (`0 <= k < 32`).
pub open spec fn nibble(id: u128, k: int) -> u128 {
    (id >> ((124 - 4 * k) as u128)) & 0xf
}

/// The lower-case hexadecimal character for a digit value below 16.
pub open spec fn hex_char(d: u128) -> char {
    if d < 10 {
        ((d + 48) as u8) as char
    } else {
        ((d + 87) as u8) as char
    }
}

/// The first `k` digits of `id` in the hyphenated text form, with a `-` in front of
/// digits 8, 12, 16 and 20.
pub open spec fn hyphenated_prefix(id: u128, k: int) -> Seq<char>
    decreases k,
{
    if k <= 0 {
        Seq::empty()
    } else {
        let head = hyphenated_prefix(id, k - 1);
        let head = if k - 1 == 8 || k - 1 == 12 || k - 1 == 16 || k - 1 == 20 {
            head.push('-')
        } else {
            head
        };
        head.push(hex_char(nibble(id, k - 1)))
    }
}

/// The hyphenated lower-case text of a UUID, such as `67e55044-10b1-426f-9247-bb680e5fe0c8`:
/// the 32 hexadecimal digits in groups of 8, 4, 4, 4 and 12 joined by `-`.
pub open spec fn uuid_text(id: u128) -> Seq<char> {
    hyphenated_prefix(id, 32)
}

fn hex_digit(d: u128) -> (c: char)
    requires
        d < 16,
    ensures
        c == hex_char(d),
{
    if d < 10 {
        ((d as u8) + 48) as char
    } else {
        ((d as u8) + 87) as char
    }
}

/// Formats an identifier the way `Uuid`'s `Display` does: hyphenated, lower case.
pub fn uuid_string(id: u128) -> (s: String)
    ensures
        s@ == uuid_text(id),
{
    let mut s = String::new();
    let mut k: u32 = 0;
    while k < 32
        invariant
            k <= 32,
            s@ == hyphenated_prefix(id, k as int),
        decreases 32 - k,
    {
        if k == 8 || k == 12 || k == 16 || k == 20 {
            push_char(&mut s, '-');
        }
        let shift: u32 = 124 - 4 * k;
        let d: u128 = (id >> shift) & 0xf;
        assert(d < 16) by (bit_vector)
            requires
                d == (id >> shift) & 0xf,
        ;
        let c = hex_digit(d);
        push_char(&mut s, c);
        k = k + 1;
    }
    s
}

/// Distinct digit values below 16 have distinct characters.
proof fn lemma_hex_char_injective(d1: u128, d2: u128)
    requires
        d1 < 16,
        d2 < 16,
        hex_char(d1) == hex_char(d2),
    ensures
        d1 == d2,
{
}

/// Equal text prefixes come from equal digits.
proof fn lemma_prefix_digits(a: u128, b: u128, k: int)
    requires
        0 <= k <= 32,
        hyphenated_prefix(a, k) == hyphenated_prefix(b, k),
    ensures
        forall|j: int| 0 <= j < k ==> nibble(a, j) == nibble(b, j),
    decreases k,
{
    if k > 0 {
        let pa = hyphenated_prefix(a, k);
        let pb = hyphenated_prefix(b, k);
        assert(pa.last() == pb.last());
        assert(nibble(a, k - 1) == (a >> ((124 - 4 * (k - 1)) as u128)) & 0xf);
        assert(nibble(b, k - 1) == (b >> ((124 - 4 * (k - 1)) as u128)) & 0xf);
        let na = nibble(a, k - 1);
        let nb = nibble(b, k - 1);
        assert(na < 16 && nb < 16) by {
            let sa = (a >> ((124 - 4 * (k - 1)) as u128));
            let sb = (b >> ((124 - 4 * (k - 1)) as u128));
            assert(sa & 0xf < 16) by (bit_vector);
            assert(sb & 0xf < 16) by (bit_vector);
        }
        lemma_hex_char_injective(na, nb);
        assert(pa.drop_last() == pb.drop_last());
        if k - 1 == 8 || k - 1 == 12 || k - 1 == 16 || k - 1 == 20 {
            assert(pa.drop_last().drop_last() == pb.drop_last().drop_last());
            assert(pa.drop_last().drop_last() =~= hyphenated_prefix(a, k - 1));
            assert(pb.drop_last().drop_last() =~= hyphenated_prefix(b, k - 1));
        } else {
            assert(pa.drop_last() =~= hyphenated_prefix(a, k - 1));
            assert(pb.drop_last() =~= hyphenated_prefix(b, k - 1));
        }
        lemma_prefix_digits(a, b, k - 1);
    }
}

/// One more equal digit below equal upper bits gives equal upper bits down to that digit.
proof fn lemma_shift_step(a: u128, b: u128, sh: u128)
    requires
        sh <= 120,
        a >> ((sh + 4) as u128) == b >> ((sh + 4) as u128),
        (a >> sh) & 0xf == (b >> sh) & 0xf,
    ensures
        a >> sh == b >> sh,
{
    assert(a >> sh == b >> sh) by (bit_vector)
        requires
            sh <= 120,
            a >> ((sh + 4) as u128) == b >> ((sh + 4) as u128),
            (a >> sh) & 0xf == (b >> sh) & 0xf,
    ;
}

/// Equal digits from the most significant one down to digit `k` give equal values above
/// the bits of the lower digits.
proof fn lemma_top_digits(a: u128, b: u128, k: int)
    requires
        0 <= k < 32,
        forall|j: int| 0 <= j <= k ==> nibble(a, j) == nibble(b, j),
    ensures
        a >> ((124 - 4 * k) as u128) == b >> ((124 - 4 * k) as u128),
    decreases k,
{
    let sh = (124 - 4 * k) as u128;
    assert(nibble(a, k) == nibble(b, k));
    if k == 0 {
        assert(a >> 124u128 == b >> 124u128) by (bit_vector)
            requires
                (a >> 124u128) & 0xf == (b >> 124u128) & 0xf,
        ;
    } else {
        lemma_top_digits(a, b, k - 1);
        assert((124 - 4 * (k - 1)) as u128 == (sh + 4) as u128);
        lemma_shift_step(a, b, sh);
    }
}

/// Distinct identifiers have distinct texts: the text of an identifier names it.
pub proof fn uuid_text_is_injective(a: u128, b: u128)
    requires
        uuid_text(a) == uuid_text(b),
    ensures
        a == b,
{
    lemma_prefix_digits(a, b, 32);
    lemma_top_digits(a, b, 31);
    assert(a >> 0u128 == a && b >> 0u128 == b) by (bit_vector);
}


/// The number of `-` in front of digit `j` in the hyphenated text.
pub open spec fn dashes_before(j: int) -> int {
    (if j >= 8 { 1int } else { 0 }) + (if j >= 12 { 1int } else { 0 }) + (if j >= 16 { 1int } else { 0 })
        + (if j >= 20 { 1int } else { 0 })
}

proof fn lemma_prefix_shape(id: u128, k: int)
    requires
        0 <= k <= 32,
    ensures
        hyphenated_prefix(id, k).len() == k + dashes_before(k) - (if k == 8 || k == 12 || k == 16 || k == 20 { 1int } else { 0 }),
        forall|j: int| 0 <= j < k ==> #[trigger] hyphenated_prefix(id, k)[j + dashes_before(j)] == hex_char(nibble(id, j)),
        forall|j: int| 0 < j < k && (j == 8 || j == 12 || j == 16 || j == 20)
            ==> #[trigger] hyphenated_prefix(id, k)[j + dashes_before(j) - 1] == '-',
    decreases k,
{
    if k > 0 {
        lemma_prefix_shape(id, k - 1);
        let p = hyphenated_prefix(id, k - 1);
        let q = hyphenated_prefix(id, k);
        assert forall|j: int| 0 <= j < k implies #[trigger] q[j + dashes_before(j)] == hex_char(nibble(id, j)) by {
            if j < k - 1 {
                assert(p[j + dashes_before(j)] == hex_char(nibble(id, j)));
            }
        }
        assert forall|j: int| 0 < j < k && (j == 8 || j == 12 || j == 16 || j == 20)
            implies #[trigger] q[j + dashes_before(j) - 1] == '-' by {
            if j < k - 1 {
                assert(p[j + dashes_before(j) - 1] == '-');
            }
        }
    }
}

proof fn lemma_hex_alphabet(d: u128)
    requires
        d < 16,
    ensures
        hex_char(d) == "0123456789abcdef"@[d as int],
{
    reveal_strlit("0123456789abcdef");
}

/// The text of an identifier has 36 characters: its 32 hexadecimal digits, most
/// significant first, in lower case, with a `-` after the 8th, 12th, 16th and 20th.
pub proof fn uuid_text_shape(id: u128)
    ensures
        uuid_text(id).len() == 36,
        uuid_text(id)[8] == '-' && uuid_text(id)[13] == '-' && uuid_text(id)[18] == '-' && uuid_text(id)[23] == '-',
        forall|j: int| 0 <= j < 32 ==> #[trigger] uuid_text(id)[j + dashes_before(j)]
            == "0123456789abcdef"@[((id >> ((124 - 4 * j) as u128)) & 0xf) as int],
{
    lemma_prefix_shape(id, 32);
    assert forall|j: int| 0 <= j < 32 implies #[trigger] uuid_text(id)[j + dashes_before(j)]
        == "0123456789abcdef"@[((id >> ((124 - 4 * j) as u128)) & 0xf) as int] by {
        let sh = (124 - 4 * j) as u128;
        let d = (id >> sh) & 0xf;
        assert(d < 16) by (bit_vector)
            requires
                d == (id >> sh) & 0xf,
        ;
        lemma_hex_alphabet(d);
    }
    assert(uuid_text(id)[8 + dashes_before(8) - 1] == '-');
    assert(uuid_text(id)[12 + dashes_before(12) - 1] == '-');
    assert(uuid_text(id)[16 + dashes_before(16) - 1] == '-');
    assert(uuid_text(id)[20 + dashes_before(20) - 1] == '-');
}

} // verus!
