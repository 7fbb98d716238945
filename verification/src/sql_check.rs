use vstd::prelude::*;

use crate::strutil::spec_find_byte;
use crate::strutil::spec_lower;
use crate::strutil::ascii_lower;
use crate::strutil::bytes_eq;
use crate::strutil::find_byte;

verus! {

/// The first whitespace-delimited token of the text, ASCII-lowercased.
pub open spec fn spec_first_token_lower(s: Seq<u8>) -> Seq<u8> {
    let e = match spec_find_byte(s, 0, 0x20) {
        Some(i) => i,
        None => s.len() as int,
    };
    s.take(e).map_values(|b: u8| spec_lower(b))
}

pub open spec fn kw_select() -> Seq<u8> {
    seq!['s' as u8, 'e' as u8, 'l' as u8, 'e' as u8, 'c' as u8, 't' as u8]
}

pub open spec fn kw_insert() -> Seq<u8> {
    seq!['i' as u8, 'n' as u8, 's' as u8, 'e' as u8, 'r' as u8, 't' as u8]
}

pub open spec fn kw_update() -> Seq<u8> {
    seq!['u' as u8, 'p' as u8, 'd' as u8, 'a' as u8, 't' as u8, 'e' as u8]
}

pub open spec fn kw_delete() -> Seq<u8> {
    seq!['d' as u8, 'e' as u8, 'l' as u8, 'e' as u8, 't' as u8, 'e' as u8]
}

pub open spec fn kw_create() -> Seq<u8> {
    seq!['c' as u8, 'r' as u8, 'e' as u8, 'a' as u8, 't' as u8, 'e' as u8]
}

pub open spec fn kw_drop() -> Seq<u8> {
    seq!['d' as u8, 'r' as u8, 'o' as u8, 'p' as u8]
}

pub open spec fn kw_alter() -> Seq<u8> {
    seq!['a' as u8, 'l' as u8, 't' as u8, 'e' as u8, 'r' as u8]
}

pub open spec fn kw_begin() -> Seq<u8> {
    seq!['b' as u8, 'e' as u8, 'g' as u8, 'i' as u8, 'n' as u8]
}

pub open spec fn kw_commit() -> Seq<u8> {
    seq!['c' as u8, 'o' as u8, 'm' as u8, 'm' as u8, 'i' as u8, 't' as u8]
}

pub open spec fn kw_rollback() -> Seq<u8> {
    seq!['r' as u8, 'o' as u8, 'l' as u8, 'l' as u8, 'b' as u8, 'a' as u8, 'c' as u8, 'k' as u8]
}

pub open spec fn kw_set() -> Seq<u8> {
    seq!['s' as u8, 'e' as u8, 't' as u8]
}

pub open spec fn kw_show() -> Seq<u8> {
    seq!['s' as u8, 'h' as u8, 'o' as u8, 'w' as u8]
}

pub open spec fn kw_with() -> Seq<u8> {
    seq!['w' as u8, 'i' as u8, 't' as u8, 'h' as u8]
}

pub open spec fn kw_truncate() -> Seq<u8> {
    seq!['t' as u8, 'r' as u8, 'u' as u8, 'n' as u8, 'c' as u8, 'a' as u8, 't' as u8, 'e' as u8]
}

/// Whether the text looks like an SQL statement: its first token,
/// case-insensitively, is one of the statement-starting keywords.
pub open spec fn spec_is_postgresql(s: Seq<u8>) -> bool {
    let t = spec_first_token_lower(s);
    ||| t == kw_select()
    ||| t == kw_insert()
    ||| t == kw_update()
    ||| t == kw_delete()
    ||| t == kw_create()
    ||| t == kw_drop()
    ||| t == kw_alter()
    ||| t == kw_begin()
    ||| t == kw_commit()
    ||| t == kw_rollback()
    ||| t == kw_set()
    ||| t == kw_show()
    ||| t == kw_with()
    ||| t == kw_truncate()
}

/// The heuristic used to accept a prepared-statement body as a query.
pub fn is_postgresql(s: &[u8]) -> (r: bool)
    ensures
        r == spec_is_postgresql(s@),
{
    let end = match find_byte(s, 0, 0x20) {
        Some(i) => i,
        None => s.len(),
    };
    let mut tok: Vec<u8> = Vec::new();
    let mut i: usize = 0;
    while i < end
        invariant
            i <= end,
            end <= s@.len(),
            tok@ == s@.take(end as int).map_values(|b: u8| spec_lower(b)).take(i as int),
        decreases end - i,
    {
        tok.push(ascii_lower(s[i]));
        proof {
            let m = s@.take(end as int).map_values(|b: u8| spec_lower(b));
            assert(m.take(i + 1) =~= m.take(i as int).push(m[i as int]));
        }
        i = i + 1;
    }
    proof {
        let m = s@.take(end as int).map_values(|b: u8| spec_lower(b));
        assert(tok@ =~= m);
    }
    let t = tok.as_slice();
    let a_select: [u8; 6] = ['s' as u8, 'e' as u8, 'l' as u8, 'e' as u8, 'c' as u8, 't' as u8];
    let a_insert: [u8; 6] = ['i' as u8, 'n' as u8, 's' as u8, 'e' as u8, 'r' as u8, 't' as u8];
    let a_update: [u8; 6] = ['u' as u8, 'p' as u8, 'd' as u8, 'a' as u8, 't' as u8, 'e' as u8];
    let a_delete: [u8; 6] = ['d' as u8, 'e' as u8, 'l' as u8, 'e' as u8, 't' as u8, 'e' as u8];
    let a_create: [u8; 6] = ['c' as u8, 'r' as u8, 'e' as u8, 'a' as u8, 't' as u8, 'e' as u8];
    let a_drop: [u8; 4] = ['d' as u8, 'r' as u8, 'o' as u8, 'p' as u8];
    let a_alter: [u8; 5] = ['a' as u8, 'l' as u8, 't' as u8, 'e' as u8, 'r' as u8];
    let a_begin: [u8; 5] = ['b' as u8, 'e' as u8, 'g' as u8, 'i' as u8, 'n' as u8];
    let a_commit: [u8; 6] = ['c' as u8, 'o' as u8, 'm' as u8, 'm' as u8, 'i' as u8, 't' as u8];
    let a_rollback: [u8; 8] = [
        'r' as u8,
        'o' as u8,
        'l' as u8,
        'l' as u8,
        'b' as u8,
        'a' as u8,
        'c' as u8,
        'k' as u8,
    ];
    let a_set: [u8; 3] = ['s' as u8, 'e' as u8, 't' as u8];
    let a_show: [u8; 4] = ['s' as u8, 'h' as u8, 'o' as u8, 'w' as u8];
    let a_with: [u8; 4] = ['w' as u8, 'i' as u8, 't' as u8, 'h' as u8];
    let a_truncate: [u8; 8] = [
        't' as u8,
        'r' as u8,
        'u' as u8,
        'n' as u8,
        'c' as u8,
        'a' as u8,
        't' as u8,
        'e' as u8,
    ];
    proof {
        assert(a_select@ =~= kw_select());
        assert(a_insert@ =~= kw_insert());
        assert(a_update@ =~= kw_update());
        assert(a_delete@ =~= kw_delete());
        assert(a_create@ =~= kw_create());
        assert(a_drop@ =~= kw_drop());
        assert(a_alter@ =~= kw_alter());
        assert(a_begin@ =~= kw_begin());
        assert(a_commit@ =~= kw_commit());
        assert(a_rollback@ =~= kw_rollback());
        assert(a_set@ =~= kw_set());
        assert(a_show@ =~= kw_show());
        assert(a_with@ =~= kw_with());
        assert(a_truncate@ =~= kw_truncate());
    }
    bytes_eq(t, a_select.as_slice()) || bytes_eq(t, a_insert.as_slice()) || bytes_eq(
        t,
        a_update.as_slice(),
    ) || bytes_eq(t, a_delete.as_slice()) || bytes_eq(t, a_create.as_slice()) || bytes_eq(
        t,
        a_drop.as_slice(),
    ) || bytes_eq(t, a_alter.as_slice()) || bytes_eq(t, a_begin.as_slice()) || bytes_eq(
        t,
        a_commit.as_slice(),
    ) || bytes_eq(t, a_rollback.as_slice()) || bytes_eq(t, a_set.as_slice()) || bytes_eq(
        t,
        a_show.as_slice(),
    ) || bytes_eq(t, a_with.as_slice()) || bytes_eq(t, a_truncate.as_slice())
}

} // verus!
