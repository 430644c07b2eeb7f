//! Identifiers of terminal surfaces and conversations.
//!
//! A conversation identifier is a 128-bit number. Its text is the usual one for
//! such numbers: thirty-two hexadecimal digits in groups of eight, four, four,
//! four and twelve, with hyphens between the groups. The text is written in
//! lower case and read in either case.
use vstd::prelude::*;
use vstd::string::*;

verus! {

/// Identifies a terminal surface.
#[derive(Debug, Clone, Copy, PartialEq, Eq, Hash, Structural)]
pub struct EntityId {
    pub value: u64,
}

impl EntityId {
    /// How the identifier is shown: its number in decimal.
    pub open spec fn spec_text(self) -> Seq<char> {
        crate::text::decimal(self.value as nat)
    }

    /// Writes the identifier as text.
    pub fn to_text(&self) -> (text: String)
        ensures
            text@ == self.spec_text(),
    {
        crate::text::write_decimal(self.value)
    }
}

/// Identifies a conversation.
#[derive(Debug, Clone, Copy, PartialEq, Eq, Hash, Structural)]
pub struct AIConversationId {
    pub value: u128,
}

/// The `n` lowest hexadecimal digits of a number, the highest of them first.
pub open spec fn digits_of(value: int, n: nat) -> Seq<int>
    decreases n,
{
    if n == 0 {
        Seq::empty()
    } else {
        digits_of(value / 16, (n - 1) as nat).push(value % 16)
    }
}

/// The number that a row of hexadecimal digits stands for.
pub open spec fn value_of(digits: Seq<int>) -> int
    decreases digits.len(),
{
    if digits.len() == 0 {
        0
    } else {
        value_of(digits.drop_last()) * 16 + digits.last()
    }
}

/// How many numbers have at most `n` hexadecimal digits.
pub open spec fn digit_room(n: nat) -> int
    decreases n,
{
    if n == 0 {
        1
    } else {
        digit_room((n - 1) as nat) * 16
    }
}

/// Where the text of a conversation identifier has its hyphens.
pub open spec fn is_hyphen_place(place: int) -> bool {
    place == 8 || place == 13 || place == 18 || place == 23
}

/// Which digit stands at a place that holds no hyphen.
pub open spec fn digit_at(place: int) -> int {
    if place < 8 {
        place
    } else if place < 13 {
        place - 1
    } else if place < 18 {
        place - 2
    } else if place < 23 {
        place - 3
    } else {
        place - 4
    }
}

/// At which place a digit stands.
pub open spec fn place_of(digit: int) -> int {
    if digit < 8 {
        digit
    } else if digit < 12 {
        digit + 1
    } else if digit < 16 {
        digit + 2
    } else if digit < 20 {
        digit + 3
    } else {
        digit + 4
    }
}

/// A text with hyphens where an identifier has them and digits everywhere else.
pub open spec fn is_id_text(text: Seq<char>) -> bool {
    &&& text.len() == 36
    &&& forall|place: int|
        0 <= place < 36 ==> if is_hyphen_place(place) {
            #[trigger] text[place] == '-'
        } else {
            crate::text::digit_value(text[place]) is Some
        }
}

/// The digits of the text of an identifier.
pub open spec fn digits_in(text: Seq<char>) -> Seq<int> {
    Seq::new(32, |digit: int| crate::text::digit_value(text[place_of(digit)]).unwrap())
}

/// Which identifier a text stands for, if it stands for one.
pub open spec fn id_in(text: Seq<char>) -> Option<AIConversationId> {
    if is_id_text(text) {
        Some(AIConversationId { value: value_of(digits_in(text)) as u128 })
    } else {
        None
    }
}

proof fn lemma_value_of_digits(value: int, n: nat)
    requires
        0 <= value < digit_room(n),
    ensures
        digits_of(value, n).len() == n,
        forall|i: int| 0 <= i < n ==> 0 <= #[trigger] digits_of(value, n)[i] < 16,
        value_of(digits_of(value, n)) == value,
    decreases n,
{
    if n > 0 {
        lemma_value_of_digits(value / 16, (n - 1) as nat);
        assert(digits_of(value, n).drop_last() =~= digits_of(value / 16, (n - 1) as nat));
    }
}

proof fn lemma_digits_of_value(digits: Seq<int>)
    requires
        forall|i: int| 0 <= i < digits.len() ==> 0 <= #[trigger] digits[i] < 16,
    ensures
        0 <= value_of(digits) < digit_room(digits.len()),
        digits_of(value_of(digits), digits.len()) == digits,
    decreases digits.len(),
{
    if digits.len() > 0 {
        let high = digits.drop_last();
        assert forall|i: int| 0 <= i < high.len() implies 0 <= #[trigger] high[i] < 16 by {
            assert(high[i] == digits[i]);
        }
        lemma_digits_of_value(high);
        let value = value_of(digits);
        assert(0 <= digits.last() < 16);
        assert(value / 16 == value_of(high));
        assert(value % 16 == digits.last());
        assert(digits_of(value, digits.len()) =~= high.push(digits.last()));
        assert(high.push(digits.last()) =~= digits);
    } else {
        assert(digits_of(0, 0) =~= digits);
    }
}

proof fn lemma_digit_room()
    ensures
        digit_room(32) == u128::MAX + 1,
{
    reveal_with_fuel(digit_room, 33);
}

/// Writes the `n` lowest digits of a number, the highest of them first.
fn write_digits(value: u128, n: usize) -> (digits: Vec<u8>)
    ensures
        digits@.len() == n,
        digits@.map_values(|d: u8| d as int) == digits_of(value as int, n as nat),
        forall|i: int| 0 <= i < n ==> #[trigger] digits@[i] < 16,
    decreases n,
{
    if n == 0 {
        let digits = Vec::new();
        assert(digits@.map_values(|d: u8| d as int) =~= digits_of(value as int, 0));
        digits
    } else {
        let mut digits = write_digits(value / 16, n - 1);
        let ghost high = digits@;
        digits.push((value % 16) as u8);
        assert(digits@.map_values(|d: u8| d as int) =~= high.map_values(|d: u8| d as int).push(
            value as int % 16,
        ));
        digits
    }
}

impl AIConversationId {
    /// How the identifier is shown.
    pub open spec fn spec_text(self) -> Seq<char> {
        Seq::new(
            36,
            |place: int|
                if is_hyphen_place(place) {
                    '-'
                } else {
                    crate::text::digit_char(digits_of(self.value as int, 32)[digit_at(place)])
                },
        )
    }

    /// Writes the identifier as text.
    pub fn to_text(&self) -> (text: String)
        ensures
            text@ == self.spec_text(),
    {
        let digits = write_digits(self.value, 32);
        let mut text = String::new();
        let mut place: usize = 0;
        let mut digit: usize = 0;
        assert(text@ =~= self.spec_text().take(0));
        while place < 36
            invariant
                place <= 36,
                place < 36 && !is_hyphen_place(place as int) ==> digit == digit_at(place as int),
                place < 36 && is_hyphen_place(place as int) ==> digit == digit_at(place + 1),
                digits@.len() == 32,
                digits@.map_values(|d: u8| d as int) == digits_of(self.value as int, 32),
                forall|i: int| 0 <= i < 32 ==> #[trigger] digits@[i] < 16,
                text@ == self.spec_text().take(place as int),
            decreases 36 - place,
        {
            if place == 8 || place == 13 || place == 18 || place == 23 {
                proof {
                    reveal_strlit("-");
                }
                text.append("-");
            } else {
                assert(digits_of(self.value as int, 32)[digit as int] == digits@[digit as int]);
                crate::text::push_digit(&mut text, digits[digit]);
                digit = digit + 1;
            }
            place = place + 1;
            assert(text@ =~= self.spec_text().take(place as int));
        }
        assert(self.spec_text().take(36) =~= self.spec_text());
        text
    }

    /// Reads an identifier from text: `None` if the text stands for none.
    pub fn from_text(text: &str) -> (id: Option<AIConversationId>)
        ensures
            id == id_in(text@),
    {
        if text.unicode_len() != 36 {
            return None;
        }
        let mut value: u128 = 0;
        let mut place: usize = 0;
        let ghost mut count: nat = 0;
        assert(digits_in(text@).take(0) =~= Seq::empty());
        while place < 36
            invariant
                place <= 36,
                text@.len() == 36,
                count <= 32,
                place < 36 && !is_hyphen_place(place as int) ==> count == digit_at(place as int),
                place < 36 && is_hyphen_place(place as int) ==> count == digit_at(place + 1),
                place == 36 ==> count == 32,
                forall|p: int|
                    0 <= p < place ==> if is_hyphen_place(p) {
                        #[trigger] text@[p] == '-'
                    } else {
                        crate::text::digit_value(text@[p]) is Some
                    },
                value as int == value_of(digits_in(text@).take(count as int)),
                value < digit_room(count),
            decreases 36 - place,
        {
            let c = text.get_char(place);
            if place == 8 || place == 13 || place == 18 || place == 23 {
                if c != '-' {
                    return None;
                }
            } else {
                match crate::text::read_digit(c) {
                    Some(d) => {
                        proof {
                            lemma_room_grows(count + 1, 32);
                            lemma_digit_room();
                            let next = digits_in(text@).take((count + 1) as int);
                            assert(next.drop_last() =~= digits_in(text@).take(count as int));
                            assert(place_of(count as int) == place);
                            assert(next.last() == d as int);
                        }
                        value = value * 16 + (d as u128);
                        proof {
                            count = count + 1;
                        }
                    },
                    None => {
                        return None;
                    },
                }
            }
            place = place + 1;
        }
        assert(digits_in(text@).take(32) =~= digits_in(text@));
        Some(AIConversationId { value })
    }
}

proof fn lemma_room_grows(m: nat, n: nat)
    requires
        m <= n,
    ensures
        1 <= digit_room(m) <= digit_room(n),
    decreases n,
{
    if m < n {
        lemma_room_grows(m, (n - 1) as nat);
    } else if m > 0 {
        lemma_room_grows((m - 1) as nat, (n - 1) as nat);
    }
}

/// The text of an identifier is read back as that identifier.
pub proof fn law_id_round_trip(id: AIConversationId)
    ensures
        id_in(id.spec_text()) == Some(id),
{
    let digits = digits_of(id.value as int, 32);
    let text = id.spec_text();
    lemma_digit_room();
    lemma_value_of_digits(id.value as int, 32);
    assert forall|place: int| 0 <= place < 36 implies if is_hyphen_place(place) {
        #[trigger] text[place] == '-'
    } else {
        crate::text::digit_value(text[place]) == Some(digits[digit_at(place)])
    } by {
        if !is_hyphen_place(place) {
            crate::text::lemma_digit_round_trip(digits[digit_at(place)]);
        }
    }
    assert forall|digit: int| 0 <= digit < 32 implies #[trigger] digits_in(text)[digit]
        == digits[digit] by {
        assert(!is_hyphen_place(place_of(digit)));
        assert(digit_at(place_of(digit)) == digit);
        assert(text[place_of(digit)] == text[place_of(digit)]);
    }
    assert(digits_in(text) =~= digits);
}

/// Two identifiers with the same text are the same identifier.
pub proof fn law_id_text_is_unique(a: AIConversationId, b: AIConversationId)
    requires
        a.spec_text() == b.spec_text(),
    ensures
        a == b,
{
    law_id_round_trip(a);
    law_id_round_trip(b);
}

/// A text that stands for an identifier is the identifier's own text, up to the
/// case of its letters: digit for digit it counts for the same.
pub proof fn law_id_text_up_to_case(text: Seq<char>, id: AIConversationId)
    requires
        id_in(text) == Some(id),
    ensures
        text.len() == id.spec_text().len(),
        forall|place: int|
            0 <= place < text.len() ==> (#[trigger] text[place] == '-'
                <==> id.spec_text()[place] == '-') && crate::text::digit_value(text[place])
                == crate::text::digit_value(id.spec_text()[place]),
{
    let digits = digits_in(text);
    assert forall|digit: int| 0 <= digit < 32 implies 0 <= #[trigger] digits[digit] < 16 by {
        assert(!is_hyphen_place(place_of(digit)));
        assert(crate::text::digit_value(text[place_of(digit)]) is Some);
    }
    lemma_digits_of_value(digits);
    lemma_digit_room();
    assert(digits_of(id.value as int, 32) == digits);
    assert forall|place: int| 0 <= place < text.len() implies (#[trigger] text[place] == '-'
        <==> id.spec_text()[place] == '-') && crate::text::digit_value(text[place])
        == crate::text::digit_value(id.spec_text()[place]) by {
        if !is_hyphen_place(place) {
            let digit = digit_at(place);
            assert(place_of(digit) == place);
            assert(digits[digit] == crate::text::digit_value(text[place]).unwrap());
            crate::text::lemma_digit_round_trip(digits[digit]);
        }
    }
}

/// A surface is shown by its number, and so two surfaces are never shown alike.
pub proof fn law_surface_text_stands_for_number(surface: EntityId, other: EntityId)
    ensures
        crate::text::decimal_value(surface.spec_text()) == surface.value,
        forall|i: int|
            0 <= i < surface.spec_text().len() ==> '0' <= #[trigger] surface.spec_text()[i] <= '9',
        surface.spec_text().len() > 0,
        surface.spec_text()[0] == '0' ==> surface.spec_text().len() == 1,
        surface.spec_text() == other.spec_text() ==> surface == other,
{
    crate::text::law_decimal_stands_for_number(surface.value as nat);
    crate::text::law_decimal_stands_for_number(other.value as nat);
}

proof fn lemma_digit_by_division(value: int, n: nat, i: int)
    requires
        0 <= value,
        0 <= i < n,
    ensures
        digits_of(value, n).len() == n,
        digits_of(value, n)[i] == (value / vstd::arithmetic::power::pow(16, (n - 1 - i) as nat))
            % 16,
    decreases n,
{
    vstd::arithmetic::power::lemma_pow0(16);
    if n == 1 {
        assert(digits_of(value / 16, 0).len() == 0);
    } else {
        lemma_digit_by_division(value / 16, (n - 1) as nat, 0);
        if i < n - 1 {
            let low = (n - 2 - i) as nat;
            lemma_digit_by_division(value / 16, (n - 1) as nat, i);
            vstd::arithmetic::power::lemma_pow_positive(16, low);
            vstd::arithmetic::power::lemma_pow_adds(16, 1, low);
            vstd::arithmetic::power::lemma_pow1(16);
            vstd::arithmetic::div_mod::lemma_div_denominator(
                value,
                16,
                vstd::arithmetic::power::pow(16, low),
            );
        }
    }
}

/// The text of an identifier has hyphens behind the eighth, twelfth, sixteenth and
/// twentieth digit and nowhere else. What stands at any other place is the lower-case
/// character of the number's digit there, from the highest to the lowest.
pub proof fn law_id_text_shows_the_number(id: AIConversationId, digit: int)
    requires
        0 <= digit < 32,
    ensures
        ({
            let text = id.spec_text();
            let hyphens_before: int = (if digit >= 8 {
                1int
            } else {
                0
            }) + (if digit >= 12 {
                1int
            } else {
                0
            }) + (if digit >= 16 {
                1int
            } else {
                0
            }) + (if digit >= 20 {
                1int
            } else {
                0
            });
            &&& text.len() == 36
            &&& text[8] == '-' && text[13] == '-' && text[18] == '-' && text[23] == '-'
            &&& text[digit + hyphens_before] == crate::text::digit_char(
                (id.value as int / vstd::arithmetic::power::pow(16, (31 - digit) as nat)) % 16,
            )
        }),
{
    lemma_digit_by_division(id.value as int, 32, digit);
}

/// A text stands for an identifier exactly when it is the identifier's own text up
/// to the case of its letters.
pub proof fn law_id_texts_are_read(text: Seq<char>, id: AIConversationId)
    ensures
        id_in(text) == Some(id) <==> text.len() == 36 && forall|place: int|
            0 <= place < 36 ==> (#[trigger] text[place] == '-' <==> id.spec_text()[place] == '-')
                && crate::text::digit_value(text[place]) == crate::text::digit_value(
                id.spec_text()[place],
            ),
{
    if id_in(text) == Some(id) {
        law_id_text_up_to_case(text, id);
    } else if text.len() == 36 && forall|place: int|
        0 <= place < 36 ==> (#[trigger] text[place] == '-' <==> id.spec_text()[place] == '-')
            && crate::text::digit_value(text[place]) == crate::text::digit_value(
            id.spec_text()[place],
        ) {
        let own = id.spec_text();
        law_id_round_trip(id);
        assert forall|place: int| 0 <= place < 36 implies if is_hyphen_place(place) {
            #[trigger] text[place] == '-'
        } else {
            crate::text::digit_value(text[place]) is Some
        } by {
            assert(if is_hyphen_place(place) {
                own[place] == '-'
            } else {
                crate::text::digit_value(own[place]) is Some
            });
        }
        assert forall|digit: int| 0 <= digit < 32 implies #[trigger] digits_in(text)[digit]
            == digits_in(own)[digit] by {
            assert(0 <= place_of(digit) < 36);
            assert(text[place_of(digit)] == text[place_of(digit)]);
        }
        assert(digits_in(text) =~= digits_in(own));
        assert(false);
    }
}

} // verus!
