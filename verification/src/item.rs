//! Resource identifiers and the contest-creation payload: the parsing and
//! validation the routing layer needs before touching the store.

use vstd::prelude::*;

use crate::codec::{all_digits, is_digit, val_of};
use crate::credential::{no_control, scan_no_control, ValidationError};
use crate::error::Error;
use crate::status::HttpStatus;

verus! {

/// A resource identifier as the store numbers rows.
#[derive(Clone, Copy, PartialEq, Eq, Structural, Debug, Hash)]
pub struct ItemId {
    pub id: i64,
}

/// What parsing a path segment as an identifier yields: an optional sign,
/// then digits, taken whole; values outside the identifier range are
/// rejected.
pub open spec fn spec_parse_item_id(s: Seq<char>) -> Option<i64> {
    let signed = s.len() >= 1 && (s[0] == '-' || s[0] == '+');
    let neg = s.len() >= 1 && s[0] == '-';
    let ds = if signed {
        s.skip(1)
    } else {
        s
    };
    if ds.len() == 0 || !all_digits(ds) {
        Option::None
    } else {
        let v = val_of(ds);
        if neg {
            if v <= 0x8000000000000000 {
                Option::Some((-(v as int)) as i64)
            } else {
                Option::None
            }
        } else {
            if v <= 0x7fffffffffffffff {
                Option::Some(v as i64)
            } else {
                Option::None
            }
        }
    }
}

impl ItemId {
    /// Parse a path segment as an identifier, exactly
    /// [`spec_parse_item_id`]; anything else is a client-class failure.
    pub fn parse(param: &str) -> (r: Result<ItemId, Error>)
        ensures
            r is Ok <==> spec_parse_item_id(param@) is Some,
            r is Ok ==> r->Ok_0.id == spec_parse_item_id(param@).unwrap(),
            r is Err ==> r->Err_0.wf() && r->Err_0.spec_status().code == 400,
    {
        let n = param.unicode_len();
        let mut start: usize = 0;
        let mut neg = false;
        if n > 0 {
            let c0 = param.get_char(0);
            if c0 == '-' {
                neg = true;
                start = 1;
            } else if c0 == '+' {
                start = 1;
            }
            proof {
                assert(c0 == param@[0]);
            }
        }
        proof {
            assert((start == 1) <==> (param@.len() >= 1 && (param@[0] == '-' || param@[0]
                == '+')));
            assert(neg <==> (param@.len() >= 1 && param@[0] == '-'));
        }
        let ghost ds = if start == 1 {
            param@.skip(1)
        } else {
            param@
        };
        let bound: u64 = if neg {
            9223372036854775808
        } else {
            9223372036854775807
        };
        if start == n {
            return Err(ItemId::bad_request());
        }
        let mut acc: u64 = 0;
        let mut i: usize = start;
        while i < n
            invariant
                n == param@.len(),
                start <= i <= n,
                start <= 1,
                ds == param@.subrange(start as int, n as int),
                acc == val_of(param@.subrange(start as int, i as int)),
                all_digits(param@.subrange(start as int, i as int)),
                acc <= bound,
                bound == 9223372036854775808 || bound == 9223372036854775807,
                (start == 1) <==> (param@.len() >= 1 && (param@[0] == '-' || param@[0] == '+')),
                neg <==> (param@.len() >= 1 && param@[0] == '-'),
                neg ==> bound == 9223372036854775808,
                !neg ==> bound == 9223372036854775807,
            decreases n - i,
        {
            let c = param.get_char(i);
            let code = c as u32;
            if !(48 <= code && code <= 57) {
                proof {
                    assert(ds[i - start] == param@[i as int]);
                    assert(!all_digits(ds));
                }
                return Err(ItemId::bad_request());
            }
            let d: u64 = (code - 48) as u64;
            proof {
                let t = param@.subrange(start as int, i as int);
                let t2 = param@.subrange(start as int, i + 1int);
                assert(t2.drop_last() =~= t);
                assert(t2.last() == param@[i as int]);
                assert forall|k: int| 0 <= k < t2.len() implies is_digit(#[trigger] t2[k]) by {
                    if k < t.len() {
                        assert(t2[k] == t[k]);
                    }
                }
            }
            if acc > (bound - d) / 10 {
                proof {
                    assert(acc * 10 + d > bound) by {
                        assert(acc >= (bound - d) / 10 + 1);
                        assert(((bound - d) / 10 + 1) * 10 >= bound - d + 1) by (nonlinear_arith);
                    }
                    if all_digits(ds) {
                        let t2 = param@.subrange(start as int, i + 1int);
                        let rest = param@.subrange(i + 1int, n as int);
                        assert(ds =~= t2 + rest);
                        crate::codec::lemma_val_of_concat_ge(t2, rest);
                        assert(val_of(t2) == acc * 10 + d);
                        assert(val_of(ds) > bound);
                        let sv = param@;
                        let signed = sv.len() >= 1 && (sv[0] == '-' || sv[0] == '+');
                        let dsx = if signed { sv.skip(1) } else { sv };
                        assert(dsx == ds);
                        assert(dsx.len() >= 1);
                        assert(all_digits(dsx));
                        if neg {
                            assert(val_of(dsx) > 0x8000000000000000);
                        } else {
                            assert(val_of(dsx) > 0x7fffffffffffffff);
                        }
                        assert(spec_parse_item_id(param@) is None);
                    } else {
                        assert(spec_parse_item_id(param@) is None);
                    }
                }
                return Err(ItemId::bad_request());
            }
            acc = acc * 10 + d;
            i = i + 1;
        }
        proof {
            assert(ds =~= param@.subrange(start as int, n as int));
        }
        let id: i64 = if neg {
            if acc == 9223372036854775808 {
                i64::MIN
            } else {
                -(acc as i64)
            }
        } else {
            acc as i64
        };
        Ok(ItemId { id })
    }

    fn bad_request() -> (r: Error)
        ensures
            r.wf(),
            r.spec_status().code == 400,
    {
        Error::new(HttpStatus::bad_request(), String::from_str("Bad Request"))
    }
}

/// A contest name as the creation route accepts it: bounded and free of
/// control characters.
pub open spec fn valid_contest_name(s: Seq<char>) -> bool {
    1 <= s.len() <= 1024 && no_control(s)
}

/// A contest-creation payload.
#[derive(Clone, Debug)]
pub struct NewContest {
    pub name: String,
}

impl NewContest {
    /// Accepts exactly the valid contest names.
    pub fn validate(&self) -> (r: Result<(), ValidationError>)
        ensures
            r is Ok <==> valid_contest_name(self.name@),
    {
        let n = self.name.as_str().unicode_len();
        if n < 1 || n > 1024 {
            return Err(ValidationError::LengthOutOfRange);
        }
        if !scan_no_control(self.name.as_str()) {
            return Err(ValidationError::ControlCharacter);
        }
        Ok(())
    }
}

} // verus!
