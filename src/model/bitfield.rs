//! Calendars: which days of the schedule's validity window a journey runs.
use crate::text::push_char;
use vstd::prelude::*;

verus! {

/// The value of a hexadecimal digit, if the character is one.
pub open spec fn hex_digit_value(c: char) -> Option<nat> {
    if '0' <= c && c <= '9' {
        Some(((c as u32) - ('0' as u32)) as nat)
    } else if 'a' <= c && c <= 'f' {
        Some(((c as u32) - ('a' as u32) + 10) as nat)
    } else if 'A' <= c && c <= 'F' {
        Some(((c as u32) - ('A' as u32) + 10) as nat)
    } else {
        None
    }
}

/// Every character is a hexadecimal digit.
pub open spec fn is_hex_mask(s: Seq<char>) -> bool {
    forall|i: int| 0 <= i < s.len() ==> (#[trigger] hex_digit_value(s[i])) is Some
}

pub open spec fn bit_char(b: nat) -> char {
    if b == 0 {
        '0'
    } else {
        '1'
    }
}

/// The four binary digits of a nibble, most significant first.
pub open spec fn nibble_bits(v: nat) -> Seq<char> {
    seq![bit_char(v / 8 % 2), bit_char(v / 4 % 2), bit_char(v / 2 % 2), bit_char(v % 2)]
}

/// The day string of a hexadecimal mask: each digit becomes four binary
/// digits, in input order.
pub open spec fn hex_bits(s: Seq<char>) -> Seq<char>
    decreases s.len(),
{
    if s.len() == 0 {
        Seq::empty()
    } else {
        hex_bits(s.drop_last()) + nibble_bits(hex_digit_value(s.last())->0)
    }
}

/// A calendar: its id and one character per day, `'1'` on days of operation.
pub struct Bitfield {
    pub id: i32,
    pub days: String,
}

pub ghost struct BitfieldView {
    pub id: i32,
    pub days: Seq<char>,
}

impl View for Bitfield {
    type V = BitfieldView;

    open spec fn view(&self) -> BitfieldView {
        BitfieldView { id: self.id, days: self.days@ }
    }
}

/// Whether the day string marks `day_number` (counted from the schedule's
/// start) as a day of operation; the string starts two days earlier.
pub open spec fn operates(days: Seq<char>, day_number: int) -> bool {
    0 <= day_number + 1 < days.len() && days[day_number + 1] == '1'
}

fn hex_value(c: char) -> (r: Option<u32>)
    ensures
        match hex_digit_value(c) {
            Some(v) => r == Some(v as u32) && v < 16,
            None => r is None,
        },
{
    if '0' <= c && c <= '9' {
        Some(c as u32 - '0' as u32)
    } else if 'a' <= c && c <= 'f' {
        Some(c as u32 - 'a' as u32 + 10)
    } else if 'A' <= c && c <= 'F' {
        Some(c as u32 - 'A' as u32 + 10)
    } else {
        None
    }
}

/// Whether a mask holds hexadecimal digits only.
pub fn check_hex_mask(hex: &str) -> (r: bool)
    ensures
        r == is_hex_mask(hex@),
{
    let n = hex.unicode_len();
    let mut i: usize = 0;
    while i < n
        invariant
            n == hex@.len(),
            i <= n,
            forall|k: int| 0 <= k < i ==> (#[trigger] hex_digit_value(hex@[k])) is Some,
        decreases n - i,
    {
        if hex_value(hex.get_char(i)).is_none() {
            return false;
        }
        i = i + 1;
    }
    true
}

impl Bitfield {
    /// Expands a hexadecimal day mask into its binary day string.
    pub fn convert_hex_to_bits(hex: &str) -> (r: String)
        requires
            is_hex_mask(hex@),
        ensures
            r@ == hex_bits(hex@),
            r@.len() == 4 * hex@.len(),
    {
        let n = hex.unicode_len();
        let mut bits = String::new();
        let mut i: usize = 0;
        while i < n
            invariant
                n == hex@.len(),
                i <= n,
                is_hex_mask(hex@),
                bits@ == hex_bits(hex@.subrange(0, i as int)),
                bits@.len() == 4 * i,
            decreases n - i,
        {
            let c = hex.get_char(i);
            let v = match hex_value(c) {
                Some(v) => v,
                None => {
                    assert(hex_digit_value(hex@[i as int]) is Some);
                    0
                },
            };
            push_char(&mut bits, if v / 8 % 2 == 0 { '0' } else { '1' });
            push_char(&mut bits, if v / 4 % 2 == 0 { '0' } else { '1' });
            push_char(&mut bits, if v / 2 % 2 == 0 { '0' } else { '1' });
            push_char(&mut bits, if v % 2 == 0 { '0' } else { '1' });
            proof {
                let prefix = hex@.subrange(0, i + 1);
                assert(prefix.drop_last() =~= hex@.subrange(0, i as int));
                assert(prefix.last() == c);
            }
            i = i + 1;
            assert(bits@ =~= hex_bits(hex@.subrange(0, i as int)));
        }
        assert(hex@.subrange(0, n as int) =~= hex@);
        bits
    }

    /// Whether the calendar runs on `day_number`, counted from the first day
    /// of the schedule's validity window.
    pub fn operates_on(&self, day_number: usize) -> (r: bool)
        ensures
            r == operates(self.days@, day_number as int),
    {
        let n = self.days.as_str().unicode_len();
        if n >= 1 && day_number < n - 1 {
            self.days.as_str().get_char(day_number + 1) == '1'
        } else {
            false
        }
    }
}

/// The 1-based position in a day string of `day_number`, counted from the
/// first day of the validity window: the string starts two days earlier.
pub fn operation_position(day_number: u32) -> (r: u32)
    requires
        day_number <= u32::MAX - 2,
    ensures
        r == day_number + 2,
        forall|days: Seq<char>| operates(days, day_number as int) <==> (1 <= r <= days.len() && days[r - 1] == '1'),
{
    day_number + 2
}

/// Decoding a mask is a function of the mask: decoding it twice gives the
/// same day string, four days for each hexadecimal digit.
pub proof fn lemma_hex_bits_deterministic(a: Seq<char>, b: Seq<char>)
    requires
        a == b,
        is_hex_mask(a),
    ensures
        hex_bits(a) == hex_bits(b),
        hex_bits(a).len() == 4 * a.len(),
    decreases a.len(),
{
    if a.len() > 0 {
        assert(is_hex_mask(a.drop_last())) by {
            assert forall|i: int| 0 <= i < a.drop_last().len() implies (#[trigger] hex_digit_value(a.drop_last()[i])) is Some by {
                assert(a.drop_last()[i] == a[i]);
            }
        }
        lemma_hex_bits_deterministic(a.drop_last(), b.drop_last());
    }
}

} // verus!
