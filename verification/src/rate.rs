//! The currency handler: where the rates are fetched, how a currency is found
//! in the rate table, and how the answer is worded. The rates themselves are
//! fractions and stay with the caller, which keeps them in the order of the
//! table's codes.

use vstd::prelude::*;
use crate::command::ParsedCommand;
use crate::failure::Failure;
use crate::text::{same_text, texts};

verus! {

/// The address of the rate service, without the access key that follows it.
pub open spec fn rate_endpoint() -> Seq<char> {
    "http://data.fixer.io/api/latest?access_key="@
}

/// The address from which the latest rates are fetched with `access_key`.
pub fn rate_url(access_key: &str) -> (url: String)
    ensures
        url@ == rate_endpoint() + access_key@,
{
    "http://data.fixer.io/api/latest?access_key=".to_owned().concat(access_key)
}

/// The first place in `codes` that holds `wanted`; `None` where none does.
pub open spec fn first_place(codes: Seq<Seq<char>>, wanted: Seq<char>) -> Option<int>
    decreases codes.len(),
{
    if codes.len() == 0 {
        None
    } else if codes[0] == wanted {
        Some(0)
    } else {
        match first_place(codes.skip(1), wanted) {
            Some(i) => Some(i + 1),
            None => None,
        }
    }
}

/// `first_place` finds the first of the places that hold `wanted`, and finds
/// none only where there is none.
pub proof fn first_place_is_first(codes: Seq<Seq<char>>, wanted: Seq<char>)
    ensures
        match first_place(codes, wanted) {
            Some(i) => 0 <= i < codes.len() && codes[i] == wanted && forall|j: int|
                0 <= j < i ==> codes[j] != wanted,
            None => forall|j: int| 0 <= j < codes.len() ==> codes[j] != wanted,
        },
    decreases codes.len(),
{
    if codes.len() > 0 && codes[0] != wanted {
        let rest = codes.skip(1);
        first_place_is_first(rest, wanted);
        match first_place(rest, wanted) {
            Some(i) => {
                assert forall|j: int| 0 <= j < i + 1 implies codes[j] != wanted by {
                    if j > 0 {
                        assert(codes[j] == rest[j - 1]);
                    }
                }
            },
            None => {
                assert forall|j: int| 0 <= j < codes.len() implies codes[j] != wanted by {
                    if j > 0 {
                        assert(codes[j] == rest[j - 1]);
                    }
                }
            },
        }
    }
}

/// A place is the first that holds `wanted` if it holds it and none before it
/// does.
proof fn first_place_found(codes: Seq<Seq<char>>, wanted: Seq<char>, i: int)
    requires
        0 <= i < codes.len(),
        codes[i] == wanted,
        forall|j: int| 0 <= j < i ==> codes[j] != wanted,
    ensures
        first_place(codes, wanted) == Some(i),
{
    first_place_is_first(codes, wanted);
}

/// Finds `wanted` among `codes`, as it is written, and returns the first place
/// that holds it.
pub fn position_of(codes: &Vec<String>, wanted: &str) -> (place: Option<usize>)
    ensures
        match place {
            Some(i) => first_place(texts(codes@), wanted@) == Some(i as int),
            None => first_place(texts(codes@), wanted@) is None,
        },
{
    let mut i: usize = 0;
    while i < codes.len()
        invariant
            i <= codes.len(),
            forall|j: int| 0 <= j < i ==> texts(codes@)[j] != wanted@,
        decreases codes.len() - i,
    {
        if same_text(codes[i].as_str(), wanted) {
            proof {
                first_place_found(texts(codes@), wanted@, i as int);
            }
            return Some(i);
        }
        i = i + 1;
    }
    proof {
        first_place_is_first(texts(codes@), wanted@);
    }
    None
}

/// What `str::to_uppercase` returns for `s`.
pub uninterp spec fn uppercased(s: Seq<char>) -> Seq<char>;

/// `str::to_uppercase` returns the upper-case form of its argument, which
/// depends on the argument alone.
pub assume_specification[ str::to_uppercase ](s: &str) -> (r: String)
    ensures
        r@ == uppercased(s@),
;

/// Finds the currency `code` in the rate table, whose codes are `codes`. The
/// code is looked up in upper case, so it may be typed in either case. The
/// place returned is that of the currency's rate.
pub fn find_currency(codes: &Vec<String>, code: &str) -> (r: Result<usize, Failure>)
    ensures
        match r {
            Ok(place) => first_place(texts(codes@), uppercased(code@)) == Some(place as int),
            Err(e) => e == Failure::UnknownCurrency && first_place(
                texts(codes@),
                uppercased(code@),
            ) is None,
        },
{
    let upper = code.to_uppercase();
    match position_of(codes, upper.as_str()) {
        Some(i) => Ok(i),
        None => Err(Failure::UnknownCurrency),
    }
}

/// A conversion that is ready to be computed: the amount as it was typed, and
/// the places of the source and the target currency in the rate table.
#[derive(Debug)]
pub struct Conversion {
    pub amount: String,
    pub source: usize,
    pub target: usize,
}

impl View for Conversion {
    type V = (Seq<char>, int, int);

    /// The amount, the source's place and the target's place.
    open spec fn view(&self) -> (Seq<char>, int, int) {
        (self.amount@, self.source as int, self.target as int)
    }
}

/// The conversion that the command with fields `cmd` asks for: the first
/// parameter is the amount, the second names the source currency and the
/// third the target currency; `None` where `codes` lacks one of the two.
pub open spec fn conversion_of(
    codes: Seq<Seq<char>>,
    cmd: Seq<Seq<char>>,
) -> Option<(Seq<char>, int, int)> {
    match (first_place(codes, uppercased(cmd[2])), first_place(codes, uppercased(cmd[3]))) {
        (Some(source), Some(target)) => Some((cmd[1], source, target)),
        _ => None,
    }
}

/// Prepares the conversion that `cmd` asks for, with the rate table whose
/// codes are `codes`. A currency that the table lacks is a lookup failure.
pub fn conversion(codes: &Vec<String>, cmd: &ParsedCommand) -> (r: Result<Conversion, Failure>)
    ensures
        match conversion_of(texts(codes@), cmd@) {
            Some(c) => r matches Ok(found) && found@ == c,
            None => r matches Err(e) && e == Failure::UnknownCurrency,
        },
{
    let source = match find_currency(codes, cmd.param2.as_str()) {
        Ok(place) => place,
        Err(e) => {
            return Err(e);
        },
    };
    let target = match find_currency(codes, cmd.param3.as_str()) {
        Ok(place) => place,
        Err(e) => {
            return Err(e);
        },
    };
    Ok(Conversion { amount: cmd.param1.clone(), source, target })
}

/// The wording of a conversion: the amount and the source currency as they
/// were typed, the converted amount, and the target currency as it was typed.
pub open spec fn rate_wording(cmd: Seq<Seq<char>>, converted: Seq<char>) -> Seq<char> {
    cmd[1] + " "@ + cmd[2] + " = "@ + converted + " "@ + cmd[3]
}

/// Words the answer of the currency handler for `cmd`, whose amount came to
/// `converted` in the target currency.
pub fn rate_message(cmd: &ParsedCommand, converted: &str) -> (message: String)
    ensures
        message@ == rate_wording(cmd@, converted@),
{
    let mut message = cmd.param1.clone();
    message.append(" ");
    message.append(cmd.param2.as_str());
    message.append(" = ");
    message.append(converted);
    message.append(" ");
    message.append(cmd.param3.as_str());
    message
}

} // verus!
