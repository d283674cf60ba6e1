use vstd::prelude::*;

use crate::text::{
    decimal, is_digit, lemma_decimal, lemma_parse_decimal, parse_decimal,
    parse_unsigned, push_decimal,
};

verus! {

/// SeaweedFS only allows a max replication of 2 per type
/// so we use the enum to implement this limit
#[derive(Debug, Clone, Copy, PartialEq, Eq, Structural)]
pub enum ReplicationValues {
    OneReplica,
    TwoReplicas,
}

/// The digit that one replication slot contributes; `'0'` for an empty slot.
pub open spec fn replica_digit(v: Option<ReplicationValues>) -> char {
    match v {
        None => '0',
        Some(ReplicationValues::OneReplica) => '1',
        Some(ReplicationValues::TwoReplicas) => '2',
    }
}

impl ReplicationValues {
    pub fn to_string(&self) -> (r: String)
        ensures
            r@ == seq![replica_digit(Some(*self))],
    {
        let mut s = String::new();
        push_replica_digit(&mut s, Some(*self));
        s
    }
}

/// Appends the digit of one replication slot.
fn push_replica_digit(out: &mut String, v: Option<ReplicationValues>)
    ensures
        final(out)@ == old(out)@.push(replica_digit(v)),
{
    let t: &str = match v {
        None => "0",
        Some(ReplicationValues::OneReplica) => "1",
        Some(ReplicationValues::TwoReplicas) => "2",
    };
    proof {
        reveal_strlit("0");
        reveal_strlit("1");
        reveal_strlit("2");
    }
    out.append(t);
    assert(t@ =~= seq![replica_digit(v)]);
}

/// Replication factor for volumes
/// for example 100 means 1 replica in another data center
#[derive(Debug, Clone, Copy, PartialEq, Eq, Structural)]
pub struct ReplicationType {
    pub data_center: Option<ReplicationValues>,
    pub other_rack: Option<ReplicationValues>,
    pub same_rack: Option<ReplicationValues>,
}

impl ReplicationType {
    /// The three digits: other data center, other rack, same rack.
    pub open spec fn spec_text(&self) -> Seq<char> {
        seq![
            replica_digit(self.data_center),
            replica_digit(self.other_rack),
            replica_digit(self.same_rack),
        ]
    }

    pub fn to_string(&self) -> (r: String)
        ensures
            r@ == self.spec_text(),
            r@.len() == 3,
    {
        let mut s = String::new();
        push_replica_digit(&mut s, self.data_center);
        push_replica_digit(&mut s, self.other_rack);
        push_replica_digit(&mut s, self.same_rack);
        assert(s@ =~= self.spec_text());
        s
    }
}

/// Units for TTL for requesting a file key
#[derive(Debug, Clone, Copy, PartialEq, Eq, Structural)]
pub enum TTLUnits {
    Minute,
    Hour,
    Day,
    Week,
    Month,
    Year,
}

/// The letter of a time unit; minute and month differ by case.
pub open spec fn unit_letter(u: TTLUnits) -> char {
    match u {
        TTLUnits::Minute => 'm',
        TTLUnits::Hour => 'h',
        TTLUnits::Day => 'd',
        TTLUnits::Week => 'w',
        TTLUnits::Month => 'M',
        TTLUnits::Year => 'y',
    }
}

/// Appends the letter of a time unit.
fn push_unit_letter(out: &mut String, u: TTLUnits)
    ensures
        final(out)@ == old(out)@.push(unit_letter(u)),
{
    let t: &str = match u {
        TTLUnits::Minute => "m",
        TTLUnits::Hour => "h",
        TTLUnits::Day => "d",
        TTLUnits::Week => "w",
        TTLUnits::Month => "M",
        TTLUnits::Year => "y",
    };
    proof {
        reveal_strlit("m");
        reveal_strlit("h");
        reveal_strlit("d");
        reveal_strlit("w");
        reveal_strlit("M");
        reveal_strlit("y");
    }
    out.append(t);
    assert(t@ =~= seq![unit_letter(u)]);
}

impl TTLUnits {
    pub fn to_string(&self) -> (r: String)
        ensures
            r@ == seq![unit_letter(*self)],
    {
        let mut s = String::new();
        push_unit_letter(&mut s, *self);
        s
    }
}

/// Time to live option struct for assigning a file id
#[derive(Debug, Clone, Copy, PartialEq, Eq, Structural)]
pub struct TTL {
    pub unit: TTLUnits,
    pub value: u32,
}

impl TTL {
    /// The value in decimal followed by the unit's letter, as in `5M`.
    pub open spec fn spec_text(&self) -> Seq<char> {
        decimal(self.value as nat).push(unit_letter(self.unit))
    }

    pub fn to_string(&self) -> (r: String)
        ensures
            r@ == self.spec_text(),
    {
        let mut s = String::new();
        push_decimal(&mut s, self.value as u64);
        push_unit_letter(&mut s, self.unit);
        assert(s@ =~= self.spec_text());
        s
    }
}

/// Why a file id could not be read.
#[derive(Debug, Clone, Copy, PartialEq, Eq, Structural)]
pub enum FIDErrors {
    /// The text is not `volumeId,key[_count]`.
    MalformedHandle,
}

/// Representation of a SeaweedFS file id (3,32834855_1 for example)
#[derive(Debug, Clone, PartialEq, Eq)]
pub struct FID {
    pub volume_id: u32,
    pub file_string: String,
    pub count: Option<u64>,
}

impl View for FID {
    type V = (u32, Seq<char>, Option<u64>);

    open spec fn view(&self) -> Self::V {
        (self.volume_id, self.file_string@, self.count)
    }
}

/// `i` is the position of the first `c` in `s`.
pub open spec fn is_first(s: Seq<char>, c: char, i: int) -> bool {
    &&& 0 <= i < s.len()
    &&& s[i] == c
    &&& forall|j: int| 0 <= j < i ==> s[j] != c
}

/// The position of the first `c` in `s`, if there is one.
pub open spec fn first_index(s: Seq<char>, c: char) -> Option<int> {
    if exists|i: int| is_first(s, c, i) {
        Some(choose|i: int| is_first(s, c, i))
    } else {
        None
    }
}

proof fn lemma_first_index(s: Seq<char>, c: char, i: int)
    requires
        is_first(s, c, i),
    ensures
        first_index(s, c) == Some(i),
{
    let k = choose|k: int| is_first(s, c, k);
    assert(is_first(s, c, k));
    if k < i {
        assert(s[k] != c);
    } else if k > i {
        assert(s[i] != c);
    }
}

/// Canonical text of a file id: `volumeId,key`, then `_count` when a count is present.
pub open spec fn fid_text(h: (u32, Seq<char>, Option<u64>)) -> Seq<char> {
    let head = decimal(h.0 as nat) + seq![','] + h.1;
    match h.2 {
        Some(g) => head + seq!['_'] + decimal(g as nat),
        None => head,
    }
}

/// A file id read from text: the volume id before the first `,` (an unsigned
/// 32-bit number); after it the key, up to the first `_` if there is one; after
/// that `_` the count (an unsigned 64-bit number).
pub open spec fn parse_fid(s: Seq<char>) -> Option<(u32, Seq<char>, Option<u64>)> {
    match first_index(s, ',') {
        None => None,
        Some(i) => {
            let rest = s.subrange(i + 1, s.len() as int);
            match parse_unsigned(s.subrange(0, i), u32::MAX as nat) {
                None => None,
                Some(v) => match first_index(rest, '_') {
                    None => Some((v as u32, rest, None)),
                    Some(j) => match parse_unsigned(
                        rest.subrange(j + 1, rest.len() as int),
                        u64::MAX as nat,
                    ) {
                        Some(g) => Some((v as u32, rest.subrange(0, j), Some(g as u64))),
                        None => None,
                    },
                },
            }
        },
    }
}

/// A key that can stand in a file id's text: it holds no `_`.
pub open spec fn valid_key(key: Seq<char>) -> bool {
    forall|i: int| 0 <= i < key.len() ==> key[i] != '_'
}

/// Reading a formatted file id gives back the same volume id, key and count,
/// with the count absent exactly when it was absent, for every key without `_`.
pub proof fn lemma_fid_round_trip(h: (u32, Seq<char>, Option<u64>))
    requires
        valid_key(h.1),
    ensures
        parse_fid(fid_text(h)) == Some(h),
{
    let s = fid_text(h);
    let dv = decimal(h.0 as nat);
    lemma_decimal(h.0 as nat);
    lemma_parse_decimal(h.0 as nat, u32::MAX as nat);
    let n = dv.len() as int;
    assert forall|j: int| 0 <= j < n implies s[j] != ',' by {
        assert(s[j] == dv[j]);
        assert(is_digit(dv[j]));
    }
    assert(is_first(s, ',', n));
    lemma_first_index(s, ',', n);
    assert(s.subrange(0, n) =~= dv);
    let rest = s.subrange(n + 1, s.len() as int);
    match h.2 {
        None => {
            assert(rest =~= h.1);
            if exists|j: int| is_first(rest, '_', j) {
                let j = choose|j: int| is_first(rest, '_', j);
                assert(rest[j] == '_');
            }
        },
        Some(g) => {
            let k = h.1.len() as int;
            assert(rest =~= h.1 + seq!['_'] + decimal(g as nat));
            assert(rest[k] == '_');
            assert forall|j: int| 0 <= j < k implies rest[j] != '_' by {
                assert(rest[j] == h.1[j]);
            }
            assert(is_first(rest, '_', k));
            lemma_first_index(rest, '_', k);
            assert(rest.subrange(0, k) =~= h.1);
            assert(rest.subrange(k + 1, rest.len() as int) =~= decimal(g as nat));
            lemma_parse_decimal(g as nat, u64::MAX as nat);
        },
    }
}

/// Position of the first `c` in `s@[from..]`, or the length of `s@` when there is none.
fn find_char(s: &str, from: usize, n: usize, c: char) -> (r: usize)
    requires
        n == s@.len(),
        from <= n,
    ensures
        from <= r <= n,
        r < n ==> s@[r as int] == c,
        forall|j: int| from <= j < r ==> s@[j] != c,
{
    let mut i: usize = from;
    while i < n
        invariant
            from <= i <= n,
            n == s@.len(),
            forall|j: int| from <= j < i ==> s@[j] != c,
        decreases n - i,
    {
        if s.get_char(i) == c {
            return i;
        }
        i = i + 1;
    }
    i
}

impl FID {
    pub fn to_string(&self) -> (r: String)
        ensures
            r@ == fid_text(self@),
            valid_key(self.file_string@) ==> parse_fid(r@) == Some(self@),
    {
        proof {
            if valid_key(self.file_string@) {
                lemma_fid_round_trip(self@);
            }
        }
        let mut s = String::new();
        push_decimal(&mut s, self.volume_id as u64);
        proof {
            reveal_strlit(",");
            reveal_strlit("_");
        }
        s.append(",");
        s.append(self.file_string.as_str());
        match self.count {
            Some(count) => {
                s.append("_");
                push_decimal(&mut s, count);
            },
            None => {},
        }
        assert(s@ =~= fid_text(self@));
        s
    }

    /// Reads a file id from its text; see `parse_fid` for the grammar.
    /// An empty key (`3,` or `3,_1`) is accepted.
    pub fn from_string(s: &str) -> (r: Result<FID, FIDErrors>)
        ensures
            match r {
                Ok(f) => parse_fid(s@) == Some(f@),
                Err(e) => parse_fid(s@) is None && e == FIDErrors::MalformedHandle,
            },
    {
        let n = s.unicode_len();
        let i = find_char(s, 0, n, ',');
        if i == n {
            assert(!exists|k: int| is_first(s@, ',', k));
            return Err(FIDErrors::MalformedHandle);
        }
        proof {
            lemma_first_index(s@, ',', i as int);
        }
        let volume_id = match parse_decimal(s, 0, i, u32::MAX as u64) {
            Some(v) => v as u32,
            None => return Err(FIDErrors::MalformedHandle),
        };
        let ghost rest = s@.subrange(i + 1, n as int);
        let j = find_char(s, i + 1, n, '_');
        let key = s.substring_char(i + 1, j).to_owned();
        if j == n {
            assert(key@ =~= rest);
            assert forall|k: int| !is_first(rest, '_', k) by {
                if is_first(rest, '_', k) {
                    assert(rest[k] == s@[i + 1 + k]);
                }
            }
            return Ok(FID { volume_id, file_string: key, count: None });
        }
        proof {
            let k = j - (i + 1);
            assert forall|m: int| 0 <= m < k implies rest[m] != '_' by {
                assert(rest[m] == s@[i + 1 + m]);
            }
            assert(is_first(rest, '_', k));
            lemma_first_index(rest, '_', k);
            assert(rest.subrange(0, k) =~= key@);
            assert(rest.subrange(k + 1, rest.len() as int) =~= s@.subrange(j + 1, n as int));
        }
        match parse_decimal(s, j + 1, n, u64::MAX) {
            Some(count) => Ok(FID { volume_id, file_string: key, count: Some(count) }),
            None => Err(FIDErrors::MalformedHandle),
        }
    }
}

/// The port of a server whose address names none.
pub const DEFAULT_PORT: u16 = 9333;

/// Base URL of a server: `http://host:port`, the port 9333 when none is given.
pub open spec fn base_url(host: Seq<char>, port: Option<u16>) -> Seq<char> {
    let p: nat = match port {
        Some(p) => p as nat,
        None => DEFAULT_PORT as nat,
    };
    seq!['h', 't', 't', 'p', ':', '/', '/'] + host + seq![':'] + decimal(p)
}

/// An address `host:port` read from text: the host before the first `:`, the
/// port after it (an unsigned 16-bit number).
pub open spec fn parse_address(s: Seq<char>) -> Option<(Seq<char>, u16)> {
    match first_index(s, ':') {
        None => None,
        Some(i) => match parse_unsigned(s.subrange(i + 1, s.len() as int), u16::MAX as nat) {
            Some(p) => Some((s.subrange(0, i), p as u16)),
            None => None,
        },
    }
}

/// Builds the base URL of a server.
pub fn format_base_url(host: &String, port: Option<u16>) -> (r: String)
    ensures
        r@ == base_url(host@, port),
{
    let mut s = String::new();
    proof {
        reveal_strlit("http://");
        reveal_strlit(":");
    }
    s.append("http://");
    s.append(host.as_str());
    s.append(":");
    match port {
        Some(p) => push_decimal(&mut s, p as u64),
        None => push_decimal(&mut s, DEFAULT_PORT as u64),
    }
    assert(s@ =~= base_url(host@, port));
    s
}

/// Reads a `host:port` address; `None` when it has no `:` or no valid port.
pub fn read_address(s: &str) -> (r: Option<(String, u16)>)
    ensures
        match r {
            Some((h, p)) => parse_address(s@) == Some((h@, p)),
            None => parse_address(s@) is None,
        },
{
    let n = s.unicode_len();
    let i = find_char(s, 0, n, ':');
    if i == n {
        assert(!exists|k: int| is_first(s@, ':', k));
        return None;
    }
    proof {
        lemma_first_index(s@, ':', i as int);
    }
    match parse_decimal(s, i + 1, n, u16::MAX as u64) {
        Some(p) => {
            let host = s.substring_char(0, i).to_owned();
            Some((host, p as u16))
        },
        None => None,
    }
}

/// Location strings for volume lookup
#[derive(Debug, Clone, PartialEq, Eq)]
pub struct Location {
    pub public_url: String,
    pub url: String,
}

} // verus!
