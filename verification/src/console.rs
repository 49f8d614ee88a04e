//! The console mode's input handling: one line of the form
//! `<index>:<value>` selects a controller and a clamped brightness value.
//! Reading the line and writing the device file stay with the caller.

use vstd::prelude::*;

use crate::controller::{Controller, LightError};
use crate::utils::{dec_val, parse_u64, parses_u64, trim_spec, trim_whitespace};

verus! {

/// Whether `s` has no colon in the index range `[a, b)`.
pub open spec fn no_colon_range(s: Seq<char>, a: int, b: int) -> bool {
    forall|j: int| a <= j < b ==> s[j] != ':'
}

/// Whether position `k` holds the only colon of `s`.
pub open spec fn one_colon_at(s: Seq<char>, k: int) -> bool {
    0 <= k < s.len() && s[k] == ':' && no_colon_range(s, 0, k) && no_colon_range(
        s,
        k + 1,
        s.len() as int,
    )
}

/// At most one position can hold the only colon.
pub proof fn lemma_one_colon_unique(s: Seq<char>, k1: int, k2: int)
    requires
        one_colon_at(s, k1),
        one_colon_at(s, k2),
    ensures
        k1 == k2,
{
}

/// What a trimmed console line means against the current controller list:
/// `BadInputFormat` without exactly one colon, `ParseError` when the index
/// or the value is not a base-10 `u64` numeral, `BadIndex` when the index
/// is not a valid list position, and otherwise the index together with the
/// value clamped from above to that controller's `max_brightness`.
pub open spec fn console_outcome(t: Seq<char>, controllers: Seq<Controller>) -> Result<
    (int, int),
    LightError,
> {
    if !(exists|k: int| one_colon_at(t, k)) {
        Err(LightError::BadInputFormat)
    } else {
        let k = choose|k: int| one_colon_at(t, k);
        let left = t.take(k);
        let right = t.skip(k + 1);
        if !parses_u64(left) {
            Err(LightError::ParseError)
        } else if dec_val(left) >= controllers.len() {
            Err(LightError::BadIndex)
        } else if !parses_u64(right) {
            Err(LightError::ParseError)
        } else if dec_val(right) > controllers[dec_val(left)].max_brightness {
            Ok((dec_val(left), controllers[dec_val(left)].max_brightness as int))
        } else {
            Ok((dec_val(left), dec_val(right)))
        }
    }
}

/// Interprets one raw console line: the line is trimmed of surrounding
/// whitespace, split on its only colon into `<index>:<value>`, the index
/// checked against the list, and the value clamped to the selected
/// controller's `max_brightness`. The result is exactly `console_outcome`
/// of the trimmed line; no controller is touched.
pub fn handle_user_input(controllers: &Vec<Controller>, raw_input: String) -> (r: Result<
    (usize, u64),
    LightError,
>)
    ensures
        match r {
            Ok((cid, v)) => console_outcome(trim_spec(raw_input@), controllers@) == Ok::<
                (int, int),
                LightError,
            >((cid as int, v as int)),
            Err(e) => console_outcome(trim_spec(raw_input@), controllers@) == Err::<
                (int, int),
                LightError,
            >(e),
        },
{
    let t = trim_whitespace(raw_input.as_str());
    let n = t.unicode_len();
    let mut i: usize = 0;
    let mut colon: usize = 0;
    let mut found = false;
    let mut second: usize = 0;
    let mut found_second = false;
    while i < n
        invariant
            0 <= i <= n,
            n == t@.len(),
            !found ==> no_colon_range(t@, 0, i as int) && !found_second,
            found ==> colon < i && t@[colon as int] == ':' && no_colon_range(t@, 0, colon as int),
            found && !found_second ==> no_colon_range(t@, colon as int + 1, i as int),
            found_second ==> found && colon < second < i && t@[second as int] == ':',
        decreases n - i,
    {
        let c = t.get_char(i);
        if c == ':' {
            if !found {
                colon = i;
                found = true;
            } else if !found_second {
                second = i;
                found_second = true;
            }
        }
        i = i + 1;
    }
    if !found {
        proof {
            assert(forall|k: int| !one_colon_at(t@, k));
        }
        return Err(LightError::BadInputFormat);
    }
    if found_second {
        proof {
            assert forall|k: int| !one_colon_at(t@, k) by {
                if 0 <= k < t@.len() && t@[k] == ':' {
                    if k > colon {
                        assert(!no_colon_range(t@, 0, k));
                    } else {
                        assert(k == colon);
                        assert(t@[second as int] == ':');
                        assert(!no_colon_range(t@, k + 1, t@.len() as int));
                    }
                }
            }
        }
        return Err(LightError::BadInputFormat);
    }
    proof {
        assert(one_colon_at(t@, colon as int));
        let kk = choose|k: int| one_colon_at(t@, k);
        lemma_one_colon_unique(t@, kk, colon as int);
    }
    let left = t.substring_char(0, colon);
    let right = t.substring_char(colon + 1, n);
    proof {
        assert(left@ =~= t@.take(colon as int));
        assert(right@ =~= t@.skip(colon as int + 1));
    }
    let idx = match parse_u64(left) {
        Some(v) => v,
        None => {
            return Err(LightError::ParseError);
        },
    };
    if idx >= controllers.len() as u64 {
        return Err(LightError::BadIndex);
    }
    let cid = idx as usize;
    let value = match parse_u64(right) {
        Some(v) => v,
        None => {
            return Err(LightError::ParseError);
        },
    };
    let max = controllers[cid].max_brightness;
    let clamped = if value > max {
        max
    } else {
        value
    };
    Ok((cid, clamped))
}

} // verus!
