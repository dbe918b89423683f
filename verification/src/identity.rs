//! Resolving user and group names to numeric ids by scanning the system's
//! identity databases: colon-delimited records, one per line, the name in
//! the first field and the numeric id in the third.
//!
//! The scan walks the lines in order, parses each record whole, and stops
//! at the first record whose name matches. A record that does not have the
//! required fields, or whose id is not a number, is a hard error even
//! before the name is found — the caller must not serve on a socket whose
//! ownership could not be resolved.
use vstd::prelude::*;

verus! {

/// Why a name lookup failed.
#[derive(Clone, Copy, Debug, PartialEq, Eq, Structural)]
pub enum IdLookupError {
    /// A database record does not have the expected fields.
    MalformedEntry,
    /// No record carries the requested name.
    NotFound,
}

/// The first position of `stop` in `db[i..end)`, or `end` when it does not
/// occur there.
pub open spec fn scan_to(db: Seq<u8>, i: int, end: int, stop: u8) -> int
    decreases end - i,
{
    if i < 0 || i >= end {
        end
    } else if db[i] == stop {
        i
    } else {
        scan_to(db, i + 1, end, stop)
    }
}

/// The value of the first `i` digit bytes, read as a decimal number.
pub open spec fn byte_digits_value(t: Seq<u8>, i: int) -> int
    decreases i,
{
    if i <= 0 {
        0
    } else {
        byte_digits_value(t, i - 1) * 10 + (t[i - 1] - 48)
    }
}

/// The number a digit string stands for, when it is nonempty, all digits,
/// and fits in 32 unsigned bits.
pub open spec fn dec_u32_value(t: Seq<u8>) -> Option<u32> {
    if t.len() >= 1 && (forall|j: int| 0 <= j < t.len() ==> 48 <= #[trigger] t[j] <= 57) {
        let v = byte_digits_value(t, t.len() as int);
        if v <= u32::MAX {
            Some(v as u32)
        } else {
            None
        }
    } else {
        None
    }
}

/// Parse one record in `db[i..e)`: the name and the numeric id in the third
/// field. A passwd record needs seven fields with a numeric third and
/// fourth; a group record needs four fields with a numeric third. `None`
/// when the record has another shape.
pub open spec fn parse_entry(db: Seq<u8>, i: int, e: int, passwd: bool) -> Option<(Seq<u8>, u32)> {
    let p1 = scan_to(db, i, e, 58);
    if p1 >= e {
        None
    } else {
        let p2 = scan_to(db, p1 + 1, e, 58);
        if p2 >= e {
            None
        } else {
            let p3 = scan_to(db, p2 + 1, e, 58);
            match dec_u32_value(db.subrange(p2 + 1, p3)) {
                Option::None => None,
                Option::Some(id) => if passwd {
                    if p3 >= e {
                        None
                    } else {
                        let p4 = scan_to(db, p3 + 1, e, 58);
                        match dec_u32_value(db.subrange(p3 + 1, p4)) {
                            Option::None => None,
                            Option::Some(_) => if p4 >= e {
                                None
                            } else {
                                let p5 = scan_to(db, p4 + 1, e, 58);
                                if p5 >= e {
                                    None
                                } else {
                                    let p6 = scan_to(db, p5 + 1, e, 58);
                                    if p6 >= e {
                                        None
                                    } else {
                                        Some((db.subrange(i, p1), id))
                                    }
                                }
                            },
                        }
                    }
                } else {
                    if p3 >= e {
                        None
                    } else {
                        Some((db.subrange(i, p1), id))
                    }
                },
            }
        }
    }
}

/// Look a name up from line position `i` on: parse each record whole, stop
/// at the first whose name matches, and fail on the first record that does
/// not parse.
pub open spec fn spec_lookup(db: Seq<u8>, name: Seq<u8>, passwd: bool, i: int) -> Result<
    u32,
    IdLookupError,
>
    decreases db.len() - i,
{
    if i < 0 || i >= db.len() {
        Err(IdLookupError::NotFound)
    } else {
        let e0 = scan_to(db, i, db.len() as int, 10);
        let e = if e0 < i {
            i
        } else {
            e0
        };
        match parse_entry(db, i, e, passwd) {
            Option::None => Err(IdLookupError::MalformedEntry),
            Option::Some(ent) => if ent.0 == name {
                Ok(ent.1)
            } else if e >= db.len() {
                Err(IdLookupError::NotFound)
            } else {
                spec_lookup(db, name, passwd, e + 1)
            },
        }
    }
}

/// The first position of a byte in a range.
fn scan_to_exec(db: &[u8], i: usize, end: usize, stop: u8) -> (r: usize)
    requires
        i <= end <= db@.len(),
    ensures
        r == scan_to(db@, i as int, end as int, stop),
        i <= r <= end,
{
    let mut cur = i;
    while cur < end && db[cur] != stop
        invariant
            i <= cur <= end <= db@.len(),
            scan_to(db@, i as int, end as int, stop) == scan_to(db@, cur as int, end as int, stop),
        decreases end - cur,
    {
        cur = cur + 1;
    }
    cur
}

/// Digit values are nonnegative.
proof fn lemma_byte_digits_nonneg(t: Seq<u8>, i: int)
    requires
        i <= t.len(),
        forall|j: int| 0 <= j < i ==> 48 <= #[trigger] t[j] <= 57,
    ensures
        byte_digits_value(t, i) >= 0,
    decreases i,
{
    if i > 0 {
        lemma_byte_digits_nonneg(t, i - 1);
        assert(byte_digits_value(t, i - 1) * 10 >= 0) by (nonlinear_arith)
            requires
                byte_digits_value(t, i - 1) >= 0,
        ;
    }
}

/// Reading more digits never lowers the value.
proof fn lemma_byte_digits_monotone(t: Seq<u8>, i: int, n: int)
    requires
        0 <= i <= n <= t.len(),
        forall|j: int| 0 <= j < n ==> 48 <= #[trigger] t[j] <= 57,
    ensures
        byte_digits_value(t, n) >= byte_digits_value(t, i),
    decreases n - i,
{
    if i < n {
        lemma_byte_digits_monotone(t, i, n - 1);
        lemma_byte_digits_nonneg(t, n - 1);
        assert(byte_digits_value(t, n - 1) * 10 >= byte_digits_value(t, n - 1)) by (nonlinear_arith)
            requires
                byte_digits_value(t, n - 1) >= 0,
        ;
    }
}

/// Parse a digit string into a 32-bit value.
fn parse_u32_bytes(t: &[u8]) -> (r: Option<u32>)
    ensures
        r == dec_u32_value(t@),
{
    if t.len() == 0 {
        return None;
    }
    let mut acc: u64 = 0;
    let mut i: usize = 0;
    while i < t.len()
        invariant
            i <= t@.len(),
            t@.len() >= 1,
            forall|j: int| 0 <= j < i ==> 48 <= #[trigger] t@[j] <= 57,
            acc == byte_digits_value(t@, i as int),
            acc <= u32::MAX,
        decreases t@.len() - i,
    {
        let c = t[i];
        if !(48 <= c && c <= 57) {
            return None;
        }
        acc = acc * 10 + ((c - 48) as u64);
        i = i + 1;
        if acc > 0xFFFF_FFFFu64 {
            proof {
                if forall|j: int| 0 <= j < t@.len() ==> 48 <= #[trigger] t@[j] <= 57 {
                    lemma_byte_digits_monotone(t@, i as int, t@.len() as int);
                }
            }
            return None;
        }
    }
    Some(acc as u32)
}

/// Compare two byte strings.
fn bytes_eq(a: &[u8], b: &[u8]) -> (r: bool)
    ensures
        r == (a@ == b@),
{
    if a.len() != b.len() {
        return false;
    }
    let mut i: usize = 0;
    while i < a.len()
        invariant
            a@.len() == b@.len(),
            i <= a@.len(),
            forall|j: int| 0 <= j < i ==> a@[j] == b@[j],
        decreases a@.len() - i,
    {
        if a[i] != b[i] {
            return false;
        }
        i = i + 1;
    }
    proof {
        assert(a@ =~= b@);
    }
    true
}

/// Parse one record: the end of its name field and its id.
fn parse_entry_exec(db: &[u8], i: usize, e: usize, passwd: bool) -> (r: Option<(usize, u32)>)
    requires
        i <= e <= db@.len(),
    ensures
        match r {
            Some(p) => parse_entry(db@, i as int, e as int, passwd) == Some(
                (db@.subrange(i as int, p.0 as int), p.1),
            ) && i <= p.0 <= e,
            None => parse_entry(db@, i as int, e as int, passwd) is None,
        },
{
    let p1 = scan_to_exec(db, i, e, 58);
    if p1 >= e {
        return None;
    }
    let p2 = scan_to_exec(db, p1 + 1, e, 58);
    if p2 >= e {
        return None;
    }
    let p3 = scan_to_exec(db, p2 + 1, e, 58);
    let id = match parse_u32_bytes(vstd::slice::slice_subrange(db, p2 + 1, p3)) {
        Some(v) => v,
        None => {
            return None;
        },
    };
    if passwd {
        if p3 >= e {
            return None;
        }
        let p4 = scan_to_exec(db, p3 + 1, e, 58);
        match parse_u32_bytes(vstd::slice::slice_subrange(db, p3 + 1, p4)) {
            Some(_) => {},
            None => {
                return None;
            },
        }
        if p4 >= e {
            return None;
        }
        let p5 = scan_to_exec(db, p4 + 1, e, 58);
        if p5 >= e {
            return None;
        }
        let p6 = scan_to_exec(db, p5 + 1, e, 58);
        if p6 >= e {
            return None;
        }
        Some((p1, id))
    } else {
        if p3 >= e {
            return None;
        }
        Some((p1, id))
    }
}

/// Look a name up in an identity database.
fn lookup_id(db: &[u8], name: &[u8], passwd: bool) -> (r: Result<u32, IdLookupError>)
    ensures
        r == spec_lookup(db@, name@, passwd, 0),
{
    let mut i: usize = 0;
    while i < db.len()
        invariant
            i <= db@.len(),
            spec_lookup(db@, name@, passwd, 0) == spec_lookup(db@, name@, passwd, i as int),
        decreases db@.len() - i,
    {
        let e = scan_to_exec(db, i, db.len(), 10);
        match parse_entry_exec(db, i, e, passwd) {
            None => {
                return Err(IdLookupError::MalformedEntry);
            },
            Some((p1, id)) => {
                if bytes_eq(vstd::slice::slice_subrange(db, i, p1), name) {
                    return Ok(id);
                }
                if e >= db.len() {
                    return Err(IdLookupError::NotFound);
                }
                i = e + 1;
            },
        }
    }
    Err(IdLookupError::NotFound)
}

/// Resolve a user name to its numeric id by scanning a passwd database: a
/// record needs its seven fields, with numeric id fields; the first record
/// whose name field matches decides.
pub fn find_user_id(db: &[u8], name: &[u8]) -> (r: Result<u32, IdLookupError>)
    ensures
        r == spec_lookup(db@, name@, true, 0),
{
    lookup_id(db, name, true)
}

/// Resolve a group name to its numeric id by scanning a group database: a
/// record needs its four fields, with a numeric id field; the first record
/// whose name field matches decides.
pub fn find_group_id(db: &[u8], name: &[u8]) -> (r: Result<u32, IdLookupError>)
    ensures
        r == spec_lookup(db@, name@, false, 0),
{
    lookup_id(db, name, false)
}

} // verus!
