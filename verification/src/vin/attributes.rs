//! Vehicle attributes that follow from the VIN itself: the model year.
use chrono::Datelike;
use vstd::prelude::*;

use crate::text::char_or_nul;
use crate::vin::parser::{Error, VIN};

verus! {

/// The year that the tenth character of a VIN encodes, before any 30-year
/// correction: `A`–`H` 2010–2017, `J`–`N` 2018–2022, `P` 2023, `R`–`T`
/// 2024–2026, `V`–`Y` 2027–2030, `1`–`9` 2031–2039. `I`, `O`, `Q`, `U`,
/// `Z`, `0` and anything else encode none.
pub open spec fn year_code(c: char) -> Option<int> {
    if 'A' <= c <= 'H' {
        Some(2010 + (c as int - 'A' as int))
    } else if 'J' <= c <= 'N' {
        Some(2010 + (c as int - 'A' as int) - 1)
    } else if c == 'P' {
        Some(2023)
    } else if 'R' <= c <= 'T' {
        Some(2010 + (c as int - 'A' as int) - 3)
    } else if 'V' <= c <= 'Y' {
        Some(2010 + (c as int - 'A' as int) - 4)
    } else if '1' <= c <= '9' {
        Some(2031 + (c as int - '1' as int))
    } else {
        None
    }
}

/// The tenth-character alphabet of model years, in year order from 2010:
/// the letters without `I`, `O`, `Q`, `U` and `Z`, then the digits `1`–`9`.
pub open spec fn year_chars() -> Seq<char> {
    "ABCDEFGHJKLMNPRSTVWXY123456789"@
}

/// The year codes form a thirty-year cycle: the `k`-th character of the
/// alphabet encodes the year 2010 + `k`, and no other character encodes a
/// year.
pub proof fn lemma_year_code_cycle()
    ensures
        year_chars().len() == 30,
        forall|k: int| 0 <= k < 30 ==> year_code(#[trigger] year_chars()[k]) == Some(2010 + k),
        forall|c: char| (#[trigger] year_code(c)) is Some ==> exists|k: int| 0 <= k < 30 && year_chars()[k] == c,
{
    reveal_strlit("ABCDEFGHJKLMNPRSTVWXY123456789");
    assert(year_chars() =~= seq!['A', 'B', 'C', 'D', 'E', 'F', 'G', 'H', 'J', 'K', 'L', 'M', 'N', 'P', 'R', 'S', 'T', 'V', 'W', 'X', 'Y', '1', '2', '3', '4', '5', '6', '7', '8', '9']);
    assert forall|k: int| 0 <= k < 30 implies year_code(#[trigger] year_chars()[k]) == Some(2010 + k) by {
        assert(year_code(year_chars()[0]) == Some(2010 as int));
        assert(year_code(year_chars()[1]) == Some(2011 as int));
        assert(year_code(year_chars()[2]) == Some(2012 as int));
        assert(year_code(year_chars()[3]) == Some(2013 as int));
        assert(year_code(year_chars()[4]) == Some(2014 as int));
        assert(year_code(year_chars()[5]) == Some(2015 as int));
        assert(year_code(year_chars()[6]) == Some(2016 as int));
        assert(year_code(year_chars()[7]) == Some(2017 as int));
        assert(year_code(year_chars()[8]) == Some(2018 as int));
        assert(year_code(year_chars()[9]) == Some(2019 as int));
        assert(year_code(year_chars()[10]) == Some(2020 as int));
        assert(year_code(year_chars()[11]) == Some(2021 as int));
        assert(year_code(year_chars()[12]) == Some(2022 as int));
        assert(year_code(year_chars()[13]) == Some(2023 as int));
        assert(year_code(year_chars()[14]) == Some(2024 as int));
        assert(year_code(year_chars()[15]) == Some(2025 as int));
        assert(year_code(year_chars()[16]) == Some(2026 as int));
        assert(year_code(year_chars()[17]) == Some(2027 as int));
        assert(year_code(year_chars()[18]) == Some(2028 as int));
        assert(year_code(year_chars()[19]) == Some(2029 as int));
        assert(year_code(year_chars()[20]) == Some(2030 as int));
        assert(year_code(year_chars()[21]) == Some(2031 as int));
        assert(year_code(year_chars()[22]) == Some(2032 as int));
        assert(year_code(year_chars()[23]) == Some(2033 as int));
        assert(year_code(year_chars()[24]) == Some(2034 as int));
        assert(year_code(year_chars()[25]) == Some(2035 as int));
        assert(year_code(year_chars()[26]) == Some(2036 as int));
        assert(year_code(year_chars()[27]) == Some(2037 as int));
        assert(year_code(year_chars()[28]) == Some(2038 as int));
        assert(year_code(year_chars()[29]) == Some(2039 as int));
    }
    assert forall|c: char| (#[trigger] year_code(c)) is Some implies exists|k: int| 0 <= k < 30 && year_chars()[k] == c by {
        let k: int = if 'A' <= c <= 'H' {
            c as int - 'A' as int
        } else if 'J' <= c <= 'N' {
            c as int - 'A' as int - 1
        } else if c == 'P' {
            13
        } else if 'R' <= c <= 'T' {
            c as int - 'A' as int - 3
        } else if 'V' <= c <= 'Y' {
            c as int - 'A' as int - 4
        } else {
            c as int - '1' as int + 21
        };
        assert(0 <= k < 30);
        assert(year_code(year_chars()[k]) == Some(2010 + k));
        assert(year_chars()[k] == c);
    }
}

/// Two characters that encode the same year are the same character.
pub proof fn lemma_year_code_injective(a: char, b: char)
    requires
        year_code(a) is Some,
        year_code(a) == year_code(b),
    ensures
        a == b,
{
    lemma_year_code_cycle();
    let ka = choose|k: int| 0 <= k < 30 && year_chars()[k] == a;
    let kb = choose|k: int| 0 <= k < 30 && year_chars()[k] == b;
    assert(year_code(year_chars()[ka]) == Some(2010 + ka));
    assert(year_code(year_chars()[kb]) == Some(2010 + kb));
}

/// The vehicle type is a car or light truck: vPIC vehicle types 2 to 7,
/// or type 3 with truck type 1.
pub open spec fn is_car_or_light_truck(vehicle_type_id: int, truck_type_id: int) -> bool {
    (2 <= vehicle_type_id <= 7) || (vehicle_type_id == 3 && truck_type_id == 1)
}

/// The message of the error for a tenth character that encodes no year.
pub open spec fn model_year_msg() -> &'static str {
    "got invalid character for model year."
}

/// The model year of a VIN (NHTSA's ModelYear2 procedure): the year that
/// the tenth character encodes, 30 years earlier for a car or light truck
/// whose seventh character is a digit, and 30 years earlier again when it
/// would otherwise lie more than a year after `current_year`.
pub open spec fn model_year_of(
    chars: Seq<char>,
    vehicle_type_id: int,
    truck_type_id: int,
    current_year: int,
) -> Result<int, Error> {
    let pos10 = char_or_nul(chars, 9);
    match year_code(pos10) {
        None => Err(Error::InvalidCharacter { ch: pos10, pos: 9, msg: model_year_msg() }),
        Some(y) => {
            let pos7 = char_or_nul(chars, 6);
            let y1 = if is_car_or_light_truck(vehicle_type_id, truck_type_id) && '0' <= pos7 <= '9' {
                y - 30
            } else {
                y
            };
            Ok(
                if y1 > current_year + 1 {
                    y1 - 30
                } else {
                    y1
                },
            )
        },
    }
}

/// Wraps `chrono::Utc::now().year()`: the current year in UTC. Nothing is
/// stated of it: it depends on the clock.
#[verifier::external_body]
fn current_utc_year() -> (res: i32) {
    chrono::Utc::now().year()
}

/// The character at position `i`, `'\0'` past the end.
fn nth_char_or_nul(s: &str, i: usize) -> (res: char)
    ensures
        res == char_or_nul(s@, i as int),
{
    if i < s.unicode_len() {
        s.get_char(i)
    } else {
        '\0'
    }
}

/// The year that a character encodes (see [`year_code`]).
fn decode_year_char(c: char) -> (res: Option<i32>)
    ensures
        match year_code(c) {
            Some(y) => res == Some(y as i32),
            None => res is None,
        },
{
    if 'A' <= c && c <= 'H' {
        Some(2010 + ((c as u32) - ('A' as u32)) as i32)
    } else if 'J' <= c && c <= 'N' {
        Some(2010 + ((c as u32) - ('A' as u32)) as i32 - 1)
    } else if c == 'P' {
        Some(2023)
    } else if 'R' <= c && c <= 'T' {
        Some(2010 + ((c as u32) - ('A' as u32)) as i32 - 3)
    } else if 'V' <= c && c <= 'Y' {
        Some(2010 + ((c as u32) - ('A' as u32)) as i32 - 4)
    } else if '1' <= c && c <= '9' {
        Some(2031 + ((c as u32) - ('1' as u32)) as i32)
    } else {
        None
    }
}

impl VIN {
    /// The model year for the given vPIC vehicle and truck type ids of the
    /// VIN's manufacturer and the given current year (see [`model_year_of`]).
    pub fn model_year_from(&self, vehicle_type_id: i64, truck_type_id: i64, current_year: i32) -> (res:
        Result<i32, Error>)
        ensures
            match model_year_of(self.chars(), vehicle_type_id as int, truck_type_id as int, current_year as int) {
                Ok(y) => res == Ok::<i32, Error>(y as i32),
                Err(e) => res == Err::<i32, Error>(e),
            },
    {
        let vin = self.get_vin();
        let pos10 = nth_char_or_nul(vin, 9);
        let mut model_year: i32 = match decode_year_char(pos10) {
            Some(y) => y,
            None => {
                return Err(
                    Error::InvalidCharacter {
                        ch: pos10,
                        pos: 9,
                        msg: "got invalid character for model year.",
                    },
                );
            },
        };
        let car_lt = (2 <= vehicle_type_id && vehicle_type_id <= 7) || (vehicle_type_id == 3
            && truck_type_id == 1);
        let pos7 = nth_char_or_nul(vin, 6);
        if car_lt && '0' <= pos7 && pos7 <= '9' {
            model_year = model_year - 30;
        }
        if (model_year as i64) > (current_year as i64) + 1 {
            model_year = model_year - 30;
        }
        Ok(model_year)
    }

    /// The model year for the given vPIC vehicle and truck type ids of the
    /// VIN's manufacturer, against the current year in UTC: what
    /// [`VIN::model_year_from`] gives for some current year.
    pub fn get_model_year(&self, vehicle_type_id: i64, truck_type_id: i64) -> (res: Result<i32, Error>)
        ensures
            exists|year: i32|
                match #[trigger] model_year_of(self.chars(), vehicle_type_id as int, truck_type_id as int, year as int) {
                    Ok(y) => res == Ok::<i32, Error>(y as i32),
                    Err(e) => res == Err::<i32, Error>(e),
                },
    {
        let year = current_utc_year();
        self.model_year_from(vehicle_type_id, truck_type_id, year)
    }
}

} // verus!
