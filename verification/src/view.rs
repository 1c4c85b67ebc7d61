//! Derived process listing: case-insensitive filtering, a stable sort by
//! the active key, and truncation to a row limit. The whole pipeline is
//! pinned to one deterministic specification, `view_spec`.

use vstd::prelude::*;
use vstd::multiset::Multiset;
use vstd::seq_lib::group_seq_properties;
use crate::process::ProcessRecord;
use crate::text;

verus! {

/// The active sort key; Cpu and Mem order descending, the rest ascending.
#[derive(Clone, Copy, Debug, PartialEq, Eq, Structural)]
pub enum SortKey {
    Cpu,
    Mem,
    Pid,
    User,
    Command,
}

impl SortKey {
    /// The fixed cycle the sort-mode key steps through.
    pub fn next_in_cycle(self) -> (r: SortKey)
        ensures
            r == next_sort_key(self),
    {
        match self {
            SortKey::Cpu => SortKey::Mem,
            SortKey::Mem => SortKey::Pid,
            SortKey::Pid => SortKey::User,
            SortKey::User => SortKey::Command,
            SortKey::Command => SortKey::Cpu,
        }
    }
}

pub open spec fn next_sort_key(k: SortKey) -> SortKey {
    match k {
        SortKey::Cpu => SortKey::Mem,
        SortKey::Mem => SortKey::Pid,
        SortKey::Pid => SortKey::User,
        SortKey::User => SortKey::Command,
        SortKey::Command => SortKey::Cpu,
    }
}

/// The name under which a sort key is persisted.
pub open spec fn sort_name_of(k: SortKey) -> Seq<char> {
    match k {
        SortKey::Cpu => "cpu"@,
        SortKey::Mem => "mem"@,
        SortKey::Pid => "pid"@,
        SortKey::User => "user"@,
        SortKey::Command => "command"@,
    }
}

/// The sort key a configured name selects; anything unrecognized falls
/// back to ordering by processor use.
pub open spec fn sort_of_name(n: Seq<char>) -> SortKey {
    if n == "mem"@ {
        SortKey::Mem
    } else if n == "pid"@ {
        SortKey::Pid
    } else if n == "user"@ {
        SortKey::User
    } else if n == "command"@ {
        SortKey::Command
    } else {
        SortKey::Cpu
    }
}

impl SortKey {
    /// The name under which this sort key is persisted.
    pub fn persist_name(self) -> (r: String)
        ensures
            r@ == sort_name_of(self),
    {
        match self {
            SortKey::Cpu => "cpu".to_owned(),
            SortKey::Mem => "mem".to_owned(),
            SortKey::Pid => "pid".to_owned(),
            SortKey::User => "user".to_owned(),
            SortKey::Command => "command".to_owned(),
        }
    }
}

/// The sort key selected by an optional configured name.
pub fn sort_from_name(name: Option<&String>) -> (r: SortKey)
    ensures
        name matches Some(n) ==> r == sort_of_name(n@),
        name is None ==> r == SortKey::Cpu,
{
    match name {
        Some(n) => {
            let mem: String = "mem".to_owned();
            let pid: String = "pid".to_owned();
            let user: String = "user".to_owned();
            let command: String = "command".to_owned();
            if *n == mem {
                SortKey::Mem
            } else if *n == pid {
                SortKey::Pid
            } else if *n == user {
                SortKey::User
            } else if *n == command {
                SortKey::Command
            } else {
                SortKey::Cpu
            }
        },
        None => SortKey::Cpu,
    }
}

/// A record together with its position among the filtered candidates;
/// the position breaks ties, which makes the sort stable.
pub struct Row {
    pub idx: usize,
    pub rec: ProcessRecord,
}

/// Strictly-before under the given key.
pub open spec fn key_lt(k: SortKey, a: ProcessRecord, b: ProcessRecord) -> bool {
    match k {
        SortKey::Cpu => a.cpu_milli_percent > b.cpu_milli_percent,
        SortKey::Mem => a.mem_bytes > b.mem_bytes,
        SortKey::Pid => a.pid < b.pid,
        SortKey::User => text::lex_lt(a.user@, b.user@),
        SortKey::Command => text::lex_lt(a.command@, b.command@),
    }
}

/// Equivalent under the given key.
pub open spec fn key_eq(k: SortKey, a: ProcessRecord, b: ProcessRecord) -> bool {
    match k {
        SortKey::Cpu => a.cpu_milli_percent == b.cpu_milli_percent,
        SortKey::Mem => a.mem_bytes == b.mem_bytes,
        SortKey::Pid => a.pid == b.pid,
        SortKey::User => a.user@ == b.user@,
        SortKey::Command => a.command@ == b.command@,
    }
}

pub open spec fn key_le(k: SortKey, a: ProcessRecord, b: ProcessRecord) -> bool {
    key_lt(k, a, b) || key_eq(k, a, b)
}

/// The total order the sort uses: key order first, original position on
/// ties.
pub open spec fn row_le(k: SortKey, a: Row, b: Row) -> bool {
    key_lt(k, a.rec, b.rec) || (key_eq(k, a.rec, b.rec) && a.idx <= b.idx)
}

pub open spec fn sorted_rows(k: SortKey, s: Seq<Row>) -> bool {
    forall|i: int, j: int| 0 <= i < j < s.len() ==> row_le(k, #[trigger] s[i], #[trigger] s[j])
}

/// A record passes the filter when it is empty or occurs, up to ASCII
/// case, in the command or the owner.
pub open spec fn matches_filter(r: ProcessRecord, f: Seq<char>) -> bool {
    f.len() == 0 || text::contains_ci(r.command@, f) || text::contains_ci(r.user@, f)
}

/// The filter, as a predicate over records.
pub open spec fn filter_pred(f: Seq<char>) -> spec_fn(ProcessRecord) -> bool {
    |r: ProcessRecord| matches_filter(r, f)
}

/// Lexicographic order is trichotomous: two sequences are ordered one
/// way, the other, or equal.
proof fn lemma_lex_trichotomy(a: Seq<char>, b: Seq<char>)
    ensures
        !text::lex_lt(a, b) && !text::lex_lt(b, a) ==> a == b,
    decreases a.len(),
{
    if !text::lex_lt(a, b) && !text::lex_lt(b, a) {
        if a.len() == 0 || b.len() == 0 {
            assert(a.len() == 0 && b.len() == 0);
            assert(a =~= b);
        } else {
            if (a[0] as u32) != (b[0] as u32) {
                assert(text::lex_lt(a, b) || text::lex_lt(b, a));
            }
            assert((a[0] as u32) == (b[0] as u32));
            vstd::utf8::char_u32_cast(a[0], a[0] as u32);
            vstd::utf8::char_u32_cast(b[0], b[0] as u32);
            assert(a[0] == b[0]);
            assert(!text::lex_lt(a.drop_first(), b.drop_first()));
            assert(!text::lex_lt(b.drop_first(), a.drop_first()));
            lemma_lex_trichotomy(a.drop_first(), b.drop_first());
            assert(a.drop_first() == b.drop_first());
            assert(a.len() == b.len());
            assert forall|i: int| 0 <= i < a.len() implies a[i] == b[i] by {
                if i > 0 {
                    assert(a.drop_first()[i - 1] == b.drop_first()[i - 1]);
                }
            }
            assert(a =~= b);
        }
    }
}

proof fn lemma_lex_lt_trans(a: Seq<char>, b: Seq<char>, c: Seq<char>)
    requires
        text::lex_lt(a, b),
        text::lex_lt(b, c),
    ensures
        text::lex_lt(a, c),
    decreases a.len() + b.len() + c.len(),
{
    if c.len() == 0 {
        // lex_lt(b, c) impossible
    } else if b.len() == 0 {
        // lex_lt(a, b) impossible
    } else if a.len() == 0 {
    } else {
        if (a[0] as u32) != (b[0] as u32) {
            // a[0] < b[0]
            if (b[0] as u32) != (c[0] as u32) {
            } else {
            }
        } else {
            if (b[0] as u32) != (c[0] as u32) {
            } else {
                lemma_lex_lt_trans(a.drop_first(), b.drop_first(), c.drop_first());
            }
        }
    }
}

/// Any two rows compare under the order: it is total.
proof fn lemma_row_le_total(k: SortKey, a: Row, b: Row)
    ensures
        row_le(k, a, b) || row_le(k, b, a),
{
    match k {
        SortKey::User => {
            lemma_lex_trichotomy(a.rec.user@, b.rec.user@);
        },
        SortKey::Command => {
            lemma_lex_trichotomy(a.rec.command@, b.rec.command@);
        },
        _ => {},
    }
}

proof fn lemma_row_le_trans(k: SortKey, a: Row, b: Row, c: Row)
    requires
        row_le(k, a, b),
        row_le(k, b, c),
    ensures
        row_le(k, a, c),
{
    match k {
        SortKey::User => {
            if text::lex_lt(a.rec.user@, b.rec.user@) && text::lex_lt(b.rec.user@, c.rec.user@) {
                lemma_lex_lt_trans(a.rec.user@, b.rec.user@, c.rec.user@);
            }
        },
        SortKey::Command => {
            if text::lex_lt(a.rec.command@, b.rec.command@) && text::lex_lt(
                b.rec.command@,
                c.rec.command@,
            ) {
                lemma_lex_lt_trans(a.rec.command@, b.rec.command@, c.rec.command@);
            }
        },
        _ => {},
    }
}

/// Insertion of one row into a sorted prefix, the definition the sort is
/// pinned to: the new row goes after every row that is less than or
/// equal to it.
pub open spec fn insert_row(k: SortKey, s: Seq<Row>, r: Row) -> Seq<Row>
    decreases s.len(),
{
    if s.len() == 0 {
        seq![r]
    } else if row_le(k, s.last(), r) {
        s.push(r)
    } else {
        insert_row(k, s.drop_last(), r).push(s.last())
    }
}

/// Insertion sort of the rows, in order of arrival: the stable sort.
pub open spec fn sort_rows(k: SortKey, s: Seq<Row>) -> Seq<Row>
    decreases s.len(),
{
    if s.len() == 0 {
        Seq::<Row>::empty()
    } else {
        insert_row(k, sort_rows(k, s.drop_last()), s.last())
    }
}

proof fn lemma_insert_row_multiset(k: SortKey, s: Seq<Row>, r: Row)
    ensures
        insert_row(k, s, r).to_multiset() =~= s.to_multiset().insert(r),
    decreases s.len(),
{
    broadcast use vstd::seq_lib::group_to_multiset_ensures;

    if s.len() == 0 {
        assert(seq![r] =~= Seq::<Row>::empty().push(r));
        assert(s.to_multiset() =~= Multiset::<Row>::empty());
    } else if row_le(k, s.last(), r) {
    } else {
        lemma_insert_row_multiset(k, s.drop_last(), r);
        assert(s =~= s.drop_last().push(s.last()));
        assert(s.to_multiset() =~= s.drop_last().to_multiset().insert(s.last()));
    }
}

proof fn lemma_insert_row_sorted(k: SortKey, s: Seq<Row>, r: Row)
    requires
        sorted_rows(k, s),
    ensures
        sorted_rows(k, insert_row(k, s, r)),
    decreases s.len(),
{
    broadcast use vstd::seq_lib::group_to_multiset_ensures;

    if s.len() == 0 {
    } else if row_le(k, s.last(), r) {
        let t = s.push(r);
        assert forall|i: int, j: int| 0 <= i < j < t.len() implies row_le(k, t[i], t[j]) by {
            if j == t.len() - 1 {
                if i < s.len() - 1 {
                    lemma_row_le_trans(k, s[i], s.last(), r);
                }
            }
        }
    } else {
        let inner = insert_row(k, s.drop_last(), r);
        lemma_insert_row_sorted(k, s.drop_last(), r);
        lemma_insert_row_multiset(k, s.drop_last(), r);
        lemma_row_le_total(k, s.last(), r);
        let t = inner.push(s.last());
        assert forall|i: int, j: int| 0 <= i < j < t.len() implies row_le(k, t[i], t[j]) by {
            if j == t.len() - 1 {
                // every element of `inner` is either r or from s.drop_last()
                assert(inner.to_multiset().count(inner[i]) > 0);
                if inner[i] == r {
                    // !row_le(s.last(), r) and totality give row_le(r, s.last())
                } else {
                    assert(s.drop_last().to_multiset().count(inner[i]) > 0);
                    assert(s.drop_last().contains(inner[i]));
                    let w = choose|w: int|
                        0 <= w < s.drop_last().len() && s.drop_last()[w] == inner[i];
                    assert(s[w] == s.drop_last()[w]);
                    assert(row_le(k, s[w], s.last()));
                }
            }
        }
    }
}

proof fn lemma_sort_rows_multiset(k: SortKey, s: Seq<Row>)
    ensures
        sort_rows(k, s).to_multiset() =~= s.to_multiset(),
    decreases s.len(),
{
    broadcast use vstd::seq_lib::group_to_multiset_ensures;

    if s.len() == 0 {
    } else {
        lemma_sort_rows_multiset(k, s.drop_last());
        lemma_insert_row_multiset(k, sort_rows(k, s.drop_last()), s.last());
        assert(s =~= s.drop_last().push(s.last()));
        assert(s.to_multiset() =~= s.drop_last().to_multiset().insert(s.last()));
    }
}

proof fn lemma_sort_rows_sorted(k: SortKey, s: Seq<Row>)
    ensures
        sorted_rows(k, sort_rows(k, s)),
    decreases s.len(),
{
    if s.len() == 0 {
    } else {
        lemma_sort_rows_sorted(k, s.drop_last());
        lemma_insert_row_sorted(k, sort_rows(k, s.drop_last()), s.last());
    }
}

/// Where the scan stopped is exactly where the specification inserts.
proof fn lemma_insert_at(k: SortKey, s: Seq<Row>, r: Row, p: int)
    requires
        0 <= p <= s.len(),
        forall|q: int| p <= q < s.len() ==> !row_le(k, #[trigger] s[q], r),
        p > 0 ==> row_le(k, s[p - 1], r),
    ensures
        insert_row(k, s, r) == s.take(p) + seq![r] + s.skip(p),
    decreases s.len(),
{
    if s.len() == 0 {
        assert(insert_row(k, s, r) =~= s.take(0) + seq![r] + s.skip(0));
    } else if row_le(k, s.last(), r) {
        assert(p == s.len());
        assert(s.take(p) =~= s);
        assert(s.skip(p) =~= Seq::<Row>::empty());
        assert(insert_row(k, s, r) =~= s.take(p) + seq![r] + s.skip(p));
    } else {
        assert(p < s.len());
        lemma_insert_at(k, s.drop_last(), r, p);
        assert(insert_row(k, s, r) =~= (s.drop_last().take(p) + seq![r] + s.drop_last().skip(p)).push(
            s.last(),
        ));
        assert(s.drop_last().take(p) =~= s.take(p));
        assert((s.drop_last().take(p) + seq![r] + s.drop_last().skip(p)).push(s.last()) =~= s.take(p)
            + seq![r] + s.skip(p));
    }
}

fn key_lt_exec(k: SortKey, a: &ProcessRecord, b: &ProcessRecord) -> (r: bool)
    ensures
        r == key_lt(k, *a, *b),
{
    match k {
        SortKey::Cpu => a.cpu_milli_percent > b.cpu_milli_percent,
        SortKey::Mem => a.mem_bytes > b.mem_bytes,
        SortKey::Pid => a.pid < b.pid,
        SortKey::User => {
            let ca = text::chars_of(a.user.as_str());
            let cb = text::chars_of(b.user.as_str());
            text::lex_lt_exec(&ca, &cb)
        },
        SortKey::Command => {
            let ca = text::chars_of(a.command.as_str());
            let cb = text::chars_of(b.command.as_str());
            text::lex_lt_exec(&ca, &cb)
        },
    }
}

fn key_eq_exec(k: SortKey, a: &ProcessRecord, b: &ProcessRecord) -> (r: bool)
    ensures
        r == key_eq(k, *a, *b),
{
    match k {
        SortKey::Cpu => a.cpu_milli_percent == b.cpu_milli_percent,
        SortKey::Mem => a.mem_bytes == b.mem_bytes,
        SortKey::Pid => a.pid == b.pid,
        SortKey::User => a.user == b.user,
        SortKey::Command => a.command == b.command,
    }
}

fn row_le_exec(k: SortKey, a: &Row, b: &Row) -> (r: bool)
    ensures
        r == row_le(k, *a, *b),
{
    if key_lt_exec(k, &a.rec, &b.rec) {
        true
    } else if key_eq_exec(k, &a.rec, &b.rec) {
        a.idx <= b.idx
    } else {
        false
    }
}

fn insert_sorted(k: SortKey, out: &mut Vec<Row>, r: Row)
    ensures
        final(out)@ == insert_row(k, old(out)@, r),
{
    let ghost s = out@;
    let mut p: usize = out.len();
    loop
        invariant
            p <= out@.len(),
            out@ == s,
            forall|q: int| p <= q < s.len() ==> !row_le(k, #[trigger] s[q], r),
        ensures
            p <= s.len(),
            forall|q: int| p <= q < s.len() ==> !row_le(k, #[trigger] s[q], r),
            p > 0 ==> row_le(k, s[p - 1], r),
        decreases p,
    {
        if p == 0 {
            break;
        }
        if row_le_exec(k, &out[p - 1], &r) {
            break;
        }
        p -= 1;
    }
    out.insert(p, r);
    proof {
        lemma_insert_at(k, s, r, p as int);
        assert(s.insert(p as int, r) =~= s.take(p as int) + seq![r] + s.skip(p as int));
    }
}

/// The rows of a candidate list, each tagged with its position.
pub open spec fn rows_of(s: Seq<ProcessRecord>) -> Seq<Row> {
    Seq::new(s.len(), |i: int| Row { idx: i as usize, rec: s[i] })
}

pub open spec fn strip_rows(s: Seq<Row>) -> Seq<ProcessRecord> {
    Seq::new(s.len(), |i: int| s[i].rec)
}

/// The full pipeline: filter, tag with positions, stable sort, strip
/// the tags, truncate.
pub open spec fn view_spec(
    s: Seq<ProcessRecord>,
    k: SortKey,
    f: Seq<char>,
    limit: usize,
) -> Seq<ProcessRecord> {
    let kept = s.filter(filter_pred(f));
    let sorted = sort_rows(k, rows_of(kept));
    let n = if limit <= sorted.len() {
        limit as int
    } else {
        sorted.len() as int
    };
    strip_rows(sorted).take(n)
}

fn matches_filter_exec(r: &ProcessRecord, f: &Vec<char>) -> (b: bool)
    ensures
        b == matches_filter(*r, f@),
{
    if f.len() == 0 {
        return true;
    }
    let cmd = text::chars_of(r.command.as_str());
    if text::contains_ci_exec(&cmd, f) {
        return true;
    }
    let usr = text::chars_of(r.user.as_str());
    text::contains_ci_exec(&usr, f)
}

/// The filtered, stably sorted, truncated process listing.
#[verifier::loop_isolation(false)]
pub fn view(source: Vec<ProcessRecord>, sort_key: SortKey, filter: &Vec<char>, limit: usize) -> (r:
    Vec<ProcessRecord>)
    ensures
        r@ == view_spec(source@, sort_key, filter@, limit),
        r@.len() <= limit,
{
    broadcast use group_seq_properties;

    let ghost f = filter@;
    let ghost pred = filter_pred(f);

    let mut kept: Vec<ProcessRecord> = Vec::new();
    for rec in it: source.into_iter()
        invariant
            it.seq() == source@,
            kept@ == it.seq().take(it.index()).filter(pred),
    {
        let ghost r0 = rec;
        let ghost kept0 = kept@;
        let matched = matches_filter_exec(&rec, filter);
        if matched {
            kept.push(rec);
        }
        proof {
            reveal(Seq::filter);
            let prefix = it.seq().take(it.index());
            let whole = it.seq().take(it.index() + 1);
            assert(whole.drop_last() =~= prefix);
            assert(whole.last() == r0);
            assert(matched == matches_filter(r0, f));
            assert(pred(r0) == matches_filter(r0, f));
            if matched {
                assert(kept@ == kept0.push(r0));
            } else {
                assert(kept@ == kept0);
            }
            assert(kept@ == whole.filter(pred));
        }
    }
    assert(source@.take(source@.len() as int) =~= source@);
    let ghost kept_s = source@.filter(pred);
    assert(kept@ == kept_s);

    let mut rows: Vec<Row> = Vec::new();
    for rec in it: kept.into_iter()
        invariant
            it.seq() == kept_s,
            rows@ =~= rows_of(it.seq().take(it.index())),
            rows@.len() == it.index(),
    {
        let idx = rows.len();
        rows.push(Row { idx, rec });
        assert(rows@ =~= rows_of(it.seq().take(it.index() + 1)));
    }
    assert(kept_s.take(kept_s.len() as int) =~= kept_s);
    assert(rows@ == rows_of(kept_s));

    let ghost all_rows = rows@;
    let mut sorted: Vec<Row> = Vec::new();
    for row in it: rows.into_iter()
        invariant
            it.seq() == all_rows,
            sorted@ == sort_rows(sort_key, it.seq().take(it.index())),
    {
        proof {
            let prefix = it.seq().take(it.index());
            let whole = it.seq().take(it.index() + 1);
            assert(whole.drop_last() =~= prefix);
            assert(whole.last() == row);
        }
        insert_sorted(sort_key, &mut sorted, row);
    }
    assert(all_rows.take(all_rows.len() as int) =~= all_rows);
    let ghost sorted_s = sort_rows(sort_key, rows_of(kept_s));
    assert(sorted@ == sorted_s);

    let mut out: Vec<ProcessRecord> = Vec::new();
    let ghost n = if limit <= sorted_s.len() {
        limit as int
    } else {
        sorted_s.len() as int
    };
    for row in it: sorted.into_iter()
        invariant
            it.seq() == sorted_s,
            n == if limit <= sorted_s.len() {
                limit as int
            } else {
                sorted_s.len() as int
            },
            out@.len() <= limit,
            out@ =~= strip_rows(sorted_s).take(
                if it.index() <= n {
                    it.index()
                } else {
                    n
                },
            ),
    {
        if out.len() < limit {
            out.push(row.rec);
            assert(strip_rows(sorted_s)[it.index()] == row.rec);
            assert(out@ =~= strip_rows(sorted_s).take(it.index() + 1));
        }
    }
    assert(out@ =~= strip_rows(sorted_s).take(n));
    out
}

/// How many candidates to fetch before filtering: twice the row limit
/// when a filter is active, so the filter cannot starve the listing,
/// and never more than the fixed pool cap — one policy for every path.
pub open spec fn fetch_pool_spec(limit: usize, filter_active: bool) -> usize {
    let want: int = if filter_active {
        if limit * 2 > usize::MAX {
            usize::MAX as int
        } else {
            limit * 2
        }
    } else {
        limit as int
    };
    if want > 50 {
        50
    } else {
        want as usize
    }
}

pub fn fetch_pool_limit(limit: usize, filter_active: bool) -> (r: usize)
    ensures
        r == fetch_pool_spec(limit, filter_active),
        r <= 50,
{
    let want = if filter_active {
        if limit <= usize::MAX / 2 {
            limit * 2
        } else {
            usize::MAX
        }
    } else {
        limit
    };
    if want > 50 {
        50
    } else {
        want
    }
}

/// The pid under the selection cursor: the cursor clamped into the
/// listing, or nothing when the listing is empty — an action with no
/// eligible selection is a silent no-op.
pub fn selected_pid(list: &Vec<ProcessRecord>, selected: usize) -> (r: Option<u32>)
    ensures
        list@.len() == 0 ==> r is None,
        list@.len() > 0 ==> r == Some(
            list@[if selected < list@.len() {
                selected as int
            } else {
                list@.len() - 1
            }].pid,
        ),
{
    if list.len() == 0 {
        return None;
    }
    let idx = if selected < list.len() {
        selected
    } else {
        list.len() - 1
    };
    Some(list[idx].pid)
}

/// The listing is ordered by the requested key: any earlier row is less
/// than or key-equal to any later one.
pub open spec fn sorted_by_key(k: SortKey, s: Seq<ProcessRecord>) -> bool {
    forall|i: int, j: int| 0 <= i < j < s.len() ==> key_le(k, #[trigger] s[i], #[trigger] s[j])
}

pub open spec fn distinct_pids(s: Seq<ProcessRecord>) -> bool {
    forall|i: int, j: int| 0 <= i < j < s.len() ==> (#[trigger] s[i]).pid != (#[trigger] s[j]).pid
}

/// The listing never exceeds the requested limit, whatever the key and
/// filter.
pub proof fn lemma_view_len(s: Seq<ProcessRecord>, k: SortKey, f: Seq<char>, limit: usize)
    ensures
        view_spec(s, k, f, limit).len() <= limit,
{
}

/// The listing is fully sorted by the requested key.
pub proof fn lemma_view_sorted(s: Seq<ProcessRecord>, k: SortKey, f: Seq<char>, limit: usize)
    ensures
        sorted_by_key(k, view_spec(s, k, f, limit)),
{
    let kept = s.filter(filter_pred(f));
    let sorted = sort_rows(k, rows_of(kept));
    lemma_sort_rows_sorted(k, rows_of(kept));
    let out = view_spec(s, k, f, limit);
    assert forall|i: int, j: int| 0 <= i < j < out.len() implies key_le(k, out[i], out[j]) by {
        assert(row_le(k, sorted[i], sorted[j]));
        assert(out[i] == sorted[i].rec);
        assert(out[j] == sorted[j].rec);
    }
}

/// Ties keep their original relative order: the sort is stable.
pub proof fn lemma_sort_stable(k: SortKey, s: Seq<ProcessRecord>)
    requires
        s.len() <= usize::MAX,
    ensures
        ({
            let sorted = sort_rows(k, rows_of(s));
            forall|i: int, j: int|
                0 <= i < j < sorted.len() && key_eq(k, (#[trigger] sorted[i]).rec, (#[trigger] sorted[j]).rec)
                    ==> sorted[i].idx < sorted[j].idx
        }),
{
    broadcast use vstd::seq_lib::group_to_multiset_ensures;

    let rows = rows_of(s);
    let sorted = sort_rows(k, rows);
    lemma_sort_rows_sorted(k, rows);
    lemma_sort_rows_multiset(k, rows);
    assert(rows.no_duplicates()) by {
        assert forall|i: int, j: int| 0 <= i < j < rows.len() implies rows[i] != rows[j] by {
            assert(rows[i].idx == i as usize);
            assert(rows[j].idx == j as usize);
        }
    }
    rows.lemma_multiset_has_no_duplicates();
    sorted.lemma_multiset_has_no_duplicates_conv();
    assert forall|i: int, j: int|
        0 <= i < j < sorted.len() && key_eq(k, (sorted[i]).rec, (sorted[j]).rec) implies sorted[i].idx
        < sorted[j].idx by {
        assert(row_le(k, sorted[i], sorted[j]));
        if sorted[i].idx >= sorted[j].idx {
            if key_lt(k, sorted[i].rec, sorted[j].rec) {
                // key_eq and key_lt at once: impossible for every key
                lemma_key_lt_eq_exclusive(k, sorted[i].rec, sorted[j].rec);
            }
            assert(sorted[i].idx == sorted[j].idx);
            assert(sorted.to_multiset().count(sorted[i]) > 0);
            assert(sorted.to_multiset().count(sorted[j]) > 0);
            assert(rows.contains(sorted[i]));
            assert(rows.contains(sorted[j]));
            let wi = choose|w: int| 0 <= w < rows.len() && rows[w] == sorted[i];
            let wj = choose|w: int| 0 <= w < rows.len() && rows[w] == sorted[j];
            assert(sorted[i].idx == wi as usize);
            assert(sorted[j].idx == wj as usize);
            assert(wi == wj);
            assert(sorted[i] == sorted[j]);
            assert(sorted.no_duplicates());
        }
    }
}

/// Under one key a pair is never both strictly ordered and equivalent.
proof fn lemma_key_lt_eq_exclusive(k: SortKey, a: ProcessRecord, b: ProcessRecord)
    requires
        key_eq(k, a, b),
    ensures
        !key_lt(k, a, b),
{
    match k {
        SortKey::User => {
            lemma_lex_irrefl(a.user@);
        },
        SortKey::Command => {
            lemma_lex_irrefl(a.command@);
        },
        _ => {},
    }
}

proof fn lemma_lex_irrefl(a: Seq<char>)
    ensures
        !text::lex_lt(a, a),
    decreases a.len(),
{
    if a.len() > 0 {
        lemma_lex_irrefl(a.drop_first());
    }
}

/// Every pid appears at most once in the listing when it appeared at
/// most once in the source.
pub proof fn lemma_view_distinct_pids(s: Seq<ProcessRecord>, k: SortKey, f: Seq<char>, limit: usize)
    requires
        distinct_pids(s),
        s.len() <= usize::MAX,
    ensures
        distinct_pids(view_spec(s, k, f, limit)),
{
    broadcast use vstd::seq_lib::group_to_multiset_ensures;
    broadcast use group_seq_properties;

    let pred = filter_pred(f);
    let kept = s.filter(pred);
    lemma_filter_distinct_pids(s, f);
    let rows = rows_of(kept);
    let sorted = sort_rows(k, rows);
    lemma_sort_rows_multiset(k, rows);
    assert(rows.no_duplicates()) by {
        assert forall|i: int, j: int| 0 <= i < j < rows.len() implies rows[i] != rows[j] by {
            assert(rows[i].idx == i as usize);
            assert(rows[j].idx == j as usize);
        }
    }
    rows.lemma_multiset_has_no_duplicates();
    sorted.lemma_multiset_has_no_duplicates_conv();
    let out = view_spec(s, k, f, limit);
    assert forall|i: int, j: int| 0 <= i < j < out.len() implies (out[i]).pid != (out[j]).pid by {
        assert(out[i] == sorted[i].rec);
        assert(out[j] == sorted[j].rec);
        assert(sorted.to_multiset().count(sorted[i]) > 0);
        assert(sorted.to_multiset().count(sorted[j]) > 0);
        assert(rows.contains(sorted[i]));
        assert(rows.contains(sorted[j]));
        let wi = choose|w: int| 0 <= w < rows.len() && rows[w] == sorted[i];
        let wj = choose|w: int| 0 <= w < rows.len() && rows[w] == sorted[j];
        assert(sorted[i].rec == kept[wi]);
        assert(sorted[j].rec == kept[wj]);
        if kept[wi].pid == kept[wj].pid {
            if wi != wj {
                assert(!distinct_pids(kept));
            }
            assert(wi == wj);
            assert(sorted[i] == sorted[j]);
            assert(sorted.no_duplicates());
        }
    }
}

proof fn lemma_filter_subset(s: Seq<ProcessRecord>, pred: spec_fn(ProcessRecord) -> bool)
    ensures
        forall|x: ProcessRecord| #[trigger] s.filter(pred).contains(x) ==> s.contains(x),
    decreases s.len(),
{
    reveal(Seq::filter);
    if s.len() > 0 {
        lemma_filter_subset(s.drop_last(), pred);
        let sub = s.drop_last().filter(pred);
        assert forall|x: ProcessRecord| #[trigger] s.filter(pred).contains(x) implies s.contains(
            x,
        ) by {
            let fp = s.filter(pred);
            let j = choose|j: int| 0 <= j < fp.len() && fp[j] == x;
            if pred(s.last()) {
                if j < sub.len() {
                    assert(sub[j] == x);
                    assert(sub.contains(x));
                    let w = choose|w: int| 0 <= w < s.drop_last().len() && s.drop_last()[w] == x;
                    assert(s[w] == x);
                } else {
                    assert(x == s.last());
                    assert(s[s.len() - 1] == x);
                }
            } else {
                assert(sub[j] == x);
                assert(sub.contains(x));
                let w = choose|w: int| 0 <= w < s.drop_last().len() && s.drop_last()[w] == x;
                assert(s[w] == x);
            }
        }
    }
}

proof fn lemma_filter_distinct_pids(s: Seq<ProcessRecord>, f: Seq<char>)
    requires
        distinct_pids(s),
    ensures
        distinct_pids(s.filter(filter_pred(f))),
    decreases s.len(),
{
    reveal(Seq::filter);
    let pred = filter_pred(f);
    if s.len() == 0 {
    } else {
        let prefix = s.drop_last();
        assert(distinct_pids(prefix)) by {
            assert(forall|i: int| 0 <= i < prefix.len() ==> prefix[i] == s[i]);
        }
        lemma_filter_distinct_pids(prefix, f);
        lemma_filter_subset(prefix, pred);
        let fp = prefix.filter(pred);
        if pred(s.last()) {
            assert(s.filter(pred) == fp.push(s.last()));
            assert forall|i: int, j: int|
                0 <= i < j < fp.push(s.last()).len() implies (fp.push(s.last())[i]).pid != (fp.push(
                s.last(),
            )[j]).pid by {
                if j == fp.len() {
                    assert(fp[i] == fp.push(s.last())[i]);
                    assert(fp.contains(fp[i]));
                    assert(prefix.contains(fp[i]));
                    let w = choose|w: int| 0 <= w < prefix.len() && prefix[w] == fp[i];
                    assert(prefix[w] == s[w]);
                    assert(s[w].pid != s.last().pid);
                } else {
                    assert(fp[i].pid != fp[j].pid);
                }
            }
        } else {
            assert(s.filter(pred) == fp);
        }
    }
}

} // verus!
