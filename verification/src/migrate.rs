//! Splitting a migration file into the SQL statements that are run one by one.
//!
//! A migration file may hold several statements separated by `;` followed by a
//! newline. Windows line endings are normalised first; pieces that are empty
//! or hold only blank and `--` comment lines are skipped; a trailing `;` is
//! removed from each statement.
use vstd::prelude::*;
use crate::text::{
    ends_with_seq, from_chars, matches_at, starts_with_seq, to_chars, trim_chars, trim_end_matches_chars,
    trim_end_matches_seq, trim_end_seq, trim_seq, trim_start_seq, law_trim_idempotent,
};

verus! {

/// `s` with every `"\r\n"` replaced by `"\n"` (`str::replace`).
pub open spec fn replace_crlf(s: Seq<char>) -> Seq<char>
    decreases s.len(),
{
    if s.len() >= 2 && s[0] == '\r' && s[1] == '\n' {
        seq!['\n'] + replace_crlf(s.skip(2))
    } else if s.len() > 0 {
        seq![s[0]] + replace_crlf(s.skip(1))
    } else {
        seq![]
    }
}

/// The pieces of `s` between the leftmost non-overlapping occurrences of a
/// non-empty separator, empty pieces included (`str::split`).
pub open spec fn split_seq(s: Seq<char>, sep: Seq<char>) -> Seq<Seq<char>>
    decreases s.len(),
{
    if s.len() == 0 {
        seq![seq![]]
    } else if sep.len() > 0 && starts_with_seq(s, sep) {
        seq![seq![]] + split_seq(s.skip(sep.len() as int), sep)
    } else {
        let r = split_seq(s.drop_first(), sep);
        r.update(0, seq![s[0]] + r[0])
    }
}

/// The separator between statements.
pub open spec fn statement_separator() -> Seq<char> {
    seq![';', '\n']
}

/// A line that is blank or a `--` comment once trimmed.
pub open spec fn ignorable_line(l: Seq<char>) -> bool {
    let t = trim_seq(l);
    t.len() == 0 || starts_with_seq(t, seq!['-', '-'])
}

/// Whether every line of `t` is blank or a comment.
pub open spec fn only_comments(t: Seq<char>) -> bool {
    forall|i: int|
        0 <= i < split_seq(t, seq!['\n']).len() ==> ignorable_line(
            #[trigger] split_seq(t, seq!['\n'])[i],
        )
}

/// The statement that one piece of a migration file contributes, if any.
pub open spec fn statement_of(piece: Seq<char>) -> Option<Seq<char>> {
    let t = trim_seq(piece);
    if t.len() == 0 || only_comments(t) {
        None
    } else {
        let s = if t.last() == ';' {
            trim_seq(trim_end_matches_seq(t, seq![';']))
        } else {
            t
        };
        if s.len() == 0 {
            None
        } else {
            Some(s)
        }
    }
}

/// The statements that a sequence of pieces contributes, in order.
pub open spec fn collect_statements(pieces: Seq<Seq<char>>) -> Seq<Seq<char>>
    decreases pieces.len(),
{
    if pieces.len() == 0 {
        seq![]
    } else {
        match statement_of(pieces[0]) {
            Some(st) => seq![st] + collect_statements(pieces.skip(1)),
            None => collect_statements(pieces.skip(1)),
        }
    }
}

/// The statements of a migration file, in the order in which they are run.
pub open spec fn sql_statements(sql: Seq<char>) -> Seq<Seq<char>> {
    collect_statements(split_seq(replace_crlf(sql), statement_separator()))
}

/// The abstract contents of a list of character vectors.
pub open spec fn char_views(v: Seq<Vec<char>>) -> Seq<Seq<char>> {
    v.map_values(|x: Vec<char>| x@)
}

/// The abstract contents of a list of strings.
pub open spec fn string_views(v: Seq<String>) -> Seq<Seq<char>> {
    v.map_values(|x: String| x@)
}

proof fn lemma_split_nonempty(s: Seq<char>, sep: Seq<char>)
    ensures
        split_seq(s, sep).len() >= 1,
    decreases s.len(),
{
    if s.len() == 0 {
    } else if sep.len() > 0 && starts_with_seq(s, sep) {
        lemma_split_nonempty(s.skip(sep.len() as int), sep);
    } else {
        lemma_split_nonempty(s.drop_first(), sep);
    }
}

/// `s` with `"\r\n"` replaced by `"\n"`.
pub fn replace_crlf_chars(v: &Vec<char>) -> (r: Vec<char>)
    ensures
        r@ == replace_crlf(v@),
{
    let n = v.len();
    let mut out: Vec<char> = Vec::new();
    let mut i: usize = 0;
    assert(v@.skip(0) == v@);
    while i < n
        invariant
            i <= n == v.len(),
            replace_crlf(v@) == out@ + replace_crlf(v@.skip(i as int)),
        decreases n - i,
    {
        let ghost t = v@.skip(i as int);
        if i + 1 < n && v[i] == '\r' && v[i + 1] == '\n' {
            assert(t.skip(2) == v@.skip(i + 2));
            out.push('\n');
            i = i + 2;
        } else {
            assert(t.skip(1) == v@.skip(i + 1));
            out.push(v[i]);
            i = i + 1;
        }
    }
    assert(v@.skip(n as int) =~= Seq::<char>::empty());
    assert(out@ + Seq::<char>::empty() == out@);
    out
}

/// The pieces of `s` between the occurrences of the non-empty separator `sep`.
pub fn split_chars(s: &Vec<char>, sep: &Vec<char>) -> (r: Vec<Vec<char>>)
    requires
        sep.len() > 0,
    ensures
        char_views(r@) == split_seq(s@, sep@),
{
    let n = s.len();
    let mut pieces: Vec<Vec<char>> = Vec::new();
    let mut cur: Vec<char> = Vec::new();
    let mut i: usize = 0;
    proof {
        assert(s@.skip(0) == s@);
        lemma_split_nonempty(s@, sep@);
        let t = split_seq(s@, sep@);
        assert(t == seq![cur@ + t[0]] + t.skip(1));
        assert(char_views(pieces@) == Seq::<Seq<char>>::empty());
    }
    while i < n
        invariant
            i <= n == s.len(),
            sep.len() > 0,
            split_seq(s@.skip(i as int), sep@).len() >= 1,
            split_seq(s@, sep@) == char_views(pieces@) + seq![
                cur@ + split_seq(s@.skip(i as int), sep@)[0],
            ] + split_seq(s@.skip(i as int), sep@).skip(1),
        decreases n - i,
    {
        let ghost t = split_seq(s@.skip(i as int), sep@);
        let ghost old_pieces = pieces@;
        let ghost old_cur = cur@;
        if matches_at(s, sep, i) {
            proof {
                assert(s@.skip(i as int).skip(sep.len() as int) == s@.skip(i + sep.len()));
                lemma_split_nonempty(s@.skip(i + sep.len()), sep@);
            }
            let done = cur;
            pieces.push(done);
            cur = Vec::new();
            i = i + sep.len();
            proof {
                let t2 = split_seq(s@.skip(i as int), sep@);
                assert(t == seq![Seq::<char>::empty()] + t2);
                assert(char_views(pieces@) == char_views(old_pieces).push(old_cur));
                assert(old_cur + t[0] == old_cur);
                assert(t.skip(1) == t2);
                assert(t2 == seq![cur@ + t2[0]] + t2.skip(1));
            }
        } else {
            let c = s[i];
            proof {
                assert(s@.skip(i as int).drop_first() == s@.skip(i + 1));
                lemma_split_nonempty(s@.skip(i + 1), sep@);
            }
            cur.push(c);
            i = i + 1;
            proof {
                let r = split_seq(s@.skip(i as int), sep@);
                assert(t == r.update(0, seq![c] + r[0]));
                assert(old_cur + t[0] == cur@ + r[0]);
                assert(t.skip(1) == r.skip(1));
            }
        }
    }
    proof {
        assert(s@.skip(n as int) =~= Seq::<char>::empty());
        let t = split_seq(s@.skip(n as int), sep@);
        assert(t == seq![Seq::<char>::empty()]);
        assert(cur@ + t[0] == cur@);
    }
    let ghost before = pieces@;
    pieces.push(cur);
    proof {
        assert(char_views(pieces@) == char_views(before).push(cur@));
    }
    pieces
}

/// Whether every line of `t` is blank or a comment.
pub fn only_comment_lines(t: &Vec<char>) -> (r: bool)
    ensures
        r == only_comments(t@),
{
    let nl = vec!['\n'];
    let dashes = vec!['-', '-'];
    let lines = split_chars(t, &nl);
    assert(nl@ == seq!['\n']);
    assert(dashes@ == seq!['-', '-']);
    let mut k: usize = 0;
    while k < lines.len()
        invariant
            k <= lines.len(),
            nl@ == seq!['\n'],
            dashes@ == seq!['-', '-'],
            char_views(lines@) == split_seq(t@, seq!['\n']),
            forall|j: int| 0 <= j < k ==> ignorable_line(#[trigger] split_seq(t@, seq!['\n'])[j]),
        decreases lines.len() - k,
    {
        let lt = trim_chars(&lines[k]);
        assert(lines@[k as int]@ == split_seq(t@, seq!['\n'])[k as int]);
        if lt.len() != 0 && !matches_at(&lt, &dashes, 0) {
            assert(lt@.skip(0) == lt@);
            assert(!ignorable_line(split_seq(t@, seq!['\n'])[k as int]));
            return false;
        }
        assert(lt@.skip(0) == lt@);
        k = k + 1;
    }
    true
}

/// The statement one piece of a migration file contributes, if any.
pub fn piece_statement(piece: &Vec<char>) -> (r: Option<Vec<char>>)
    ensures
        match r {
            Some(v) => statement_of(piece@) == Some(v@),
            None => statement_of(piece@) is None,
        },
{
    let t = trim_chars(piece);
    if t.len() == 0 {
        return None;
    }
    if only_comment_lines(&t) {
        return None;
    }
    let s = if t[t.len() - 1] == ';' {
        let semi = vec![';'];
        assert(semi@ == seq![';']);
        let u = trim_end_matches_chars(&t, &semi);
        trim_chars(&u)
    } else {
        t
    };
    if s.len() == 0 {
        None
    } else {
        Some(s)
    }
}

proof fn lemma_collect_step(pieces: Seq<Seq<char>>, i: int)
    requires
        0 <= i < pieces.len(),
    ensures
        collect_statements(pieces.skip(i)) == match statement_of(pieces[i]) {
            Some(st) => seq![st] + collect_statements(pieces.skip(i + 1)),
            None => collect_statements(pieces.skip(i + 1)),
        },
{
    let p = pieces.skip(i);
    assert(p[0] == pieces[i]);
    assert(p.skip(1) == pieces.skip(i + 1));
}

/// The statements of a migration file, in the order in which they are run:
/// the file split at `;` + newline after normalising line endings, each piece
/// trimmed, pieces that are empty or only comments dropped, and a trailing
/// `;` removed.
pub fn split_sql_statements(sql: &str) -> (r: Vec<String>)
    ensures
        string_views(r@) == sql_statements(sql@),
{
    let raw = to_chars(sql);
    let normalized = replace_crlf_chars(&raw);
    let sep = vec![';', '\n'];
    assert(sep@ == statement_separator());
    let pieces = split_chars(&normalized, &sep);
    let ghost ps = split_seq(replace_crlf(sql@), statement_separator());
    let mut out: Vec<String> = Vec::new();
    let mut i: usize = 0;
    assert(ps.skip(0) == ps);
    while i < pieces.len()
        invariant
            i <= pieces.len(),
            char_views(pieces@) == ps,
            ps == split_seq(replace_crlf(sql@), statement_separator()),
            collect_statements(ps) == string_views(out@) + collect_statements(ps.skip(i as int)),
        decreases pieces.len() - i,
    {
        proof {
            lemma_collect_step(ps, i as int);
            assert(pieces@[i as int]@ == ps[i as int]);
        }
        let ghost before = out@;
        match piece_statement(&pieces[i]) {
            Some(st) => {
                let st_s = from_chars(&st);
                out.push(st_s);
                assert(string_views(out@) == string_views(before) + seq![st@]);
            },
            None => {},
        }
        i = i + 1;
    }
    assert(ps.skip(i as int) =~= Seq::<Seq<char>>::empty());
    assert(string_views(out@) + Seq::<Seq<char>>::empty() == string_views(out@));
    out
}

/// What start-up does with one migration file.
#[derive(Debug, PartialEq, Eq)]
pub enum MigrationPlan {
    /// The migration is recorded as applied: nothing is run.
    Skip,
    /// Run these statements in order, then record the migration as applied.
    Run(Vec<String>),
}

/// The plan for one migration file: skipped where it is recorded as applied,
/// else its statements are run and it is recorded.
pub fn plan_migration(applied: bool, sql: &str) -> (r: MigrationPlan)
    ensures
        applied ==> r is Skip,
        !applied ==> (r matches MigrationPlan::Run(stmts) && string_views(stmts@) == sql_statements(sql@)),
{
    if applied {
        MigrationPlan::Skip
    } else {
        MigrationPlan::Run(split_sql_statements(sql))
    }
}


/// Statements joined by a separator, the separator between each two.
pub open spec fn join_seq(parts: Seq<Seq<char>>, sep: Seq<char>) -> Seq<char>
    decreases parts.len(),
{
    if parts.len() == 0 {
        seq![]
    } else if parts.len() == 1 {
        parts[0]
    } else {
        parts[0] + sep + join_seq(parts.skip(1), sep)
    }
}

/// Whether `s` holds no `;` directly followed by a newline.
pub open spec fn has_no_separator(s: Seq<char>) -> bool {
    forall|i: int| 0 <= i < s.len() - 1 ==> !(#[trigger] s[i] == ';' && s[i + 1] == '\n')
}

/// Whether `s` holds no carriage return.
pub open spec fn has_no_cr(s: Seq<char>) -> bool {
    forall|i: int| 0 <= i < s.len() ==> #[trigger] s[i] != '\r'
}

/// A statement as the splitter gives it back: non-empty, already trimmed, not
/// only comments, not ending in `;`, and holding neither a separator nor a
/// carriage return.
pub open spec fn is_clean_statement(st: Seq<char>) -> bool {
    &&& st.len() > 0
    &&& trim_seq(st) == st
    &&& !only_comments(st)
    &&& st.last() != ';'
    &&& has_no_separator(st)
    &&& has_no_cr(st)
}

proof fn lemma_replace_crlf_no_cr(s: Seq<char>)
    requires
        has_no_cr(s),
    ensures
        replace_crlf(s) == s,
    decreases s.len(),
{
    if s.len() > 0 {
        assert(s[0] != '\r');
        let t = s.skip(1);
        assert(has_no_cr(t)) by {
            assert forall|i: int| 0 <= i < t.len() implies #[trigger] t[i] != '\r' by {
                assert(t[i] == s[i + 1]);
            }
        }
        lemma_replace_crlf_no_cr(t);
        assert(seq![s[0]] + t == s);
    }
}

proof fn lemma_join_no_cr(parts: Seq<Seq<char>>)
    requires
        forall|i: int| 0 <= i < parts.len() ==> has_no_cr(#[trigger] parts[i]),
    ensures
        has_no_cr(join_seq(parts, statement_separator())),
    decreases parts.len(),
{
    if parts.len() > 1 {
        let rest = parts.skip(1);
        assert forall|i: int| 0 <= i < rest.len() implies has_no_cr(#[trigger] rest[i]) by {
            assert(rest[i] == parts[i + 1]);
        }
        lemma_join_no_cr(rest);
        let a = parts[0];
        let j = a + statement_separator() + join_seq(rest, statement_separator());
        assert(has_no_cr(a));
        assert forall|i: int| 0 <= i < j.len() implies #[trigger] j[i] != '\r' by {
            if i < a.len() {
                assert(j[i] == a[i]);
            } else if i < a.len() + 2 {
                assert(j[i] == statement_separator()[i - a.len()]);
            } else {
                assert(j[i] == join_seq(rest, statement_separator())[i - a.len() - 2]);
            }
        }
    } else if parts.len() == 1 {
        assert(has_no_cr(parts[0]));
    }
}

proof fn lemma_split_without_separator(a: Seq<char>)
    requires
        has_no_separator(a),
    ensures
        split_seq(a, statement_separator()) == seq![a],
    decreases a.len(),
{
    let sep = statement_separator();
    if a.len() == 0 {
        assert(a == Seq::<char>::empty());
    } else {
        if a.len() >= 2 {
            assert(!(a[0] == ';' && a[1] == '\n'));
            assert(a.take(2)[0] == a[0] && a.take(2)[1] == a[1]);
        }
        assert(!starts_with_seq(a, sep));
        let t = a.drop_first();
        assert(has_no_separator(t)) by {
            assert forall|i: int| 0 <= i < t.len() - 1 implies !(#[trigger] t[i] == ';' && t[i + 1]
                == '\n') by {
                assert(t[i] == a[i + 1] && t[i + 1] == a[i + 2]);
            }
        }
        lemma_split_without_separator(t);
        assert(seq![a[0]] + t == a);
    }
}

proof fn lemma_split_after_piece(a: Seq<char>, rest: Seq<char>)
    requires
        has_no_separator(a),
    ensures
        split_seq(a + statement_separator() + rest, statement_separator()) == seq![a] + split_seq(
            rest,
            statement_separator(),
        ),
    decreases a.len(),
{
    let sep = statement_separator();
    let s = a + sep + rest;
    if a.len() == 0 {
        assert(s == sep + rest);
        assert(s.take(2) == sep);
        assert(s.skip(2) == rest);
        assert(a =~= Seq::<char>::empty());
    } else {
        if a.len() >= 2 {
            assert(!(a[0] == ';' && a[1] == '\n'));
            assert(s[0] == a[0] && s[1] == a[1]);
        } else {
            assert(s[1] == ';');
        }
        assert(s.take(2)[0] == s[0] && s.take(2)[1] == s[1]);
        assert(!starts_with_seq(s, sep));
        let t = a.drop_first();
        assert(has_no_separator(t)) by {
            assert forall|i: int| 0 <= i < t.len() - 1 implies !(#[trigger] t[i] == ';' && t[i + 1]
                == '\n') by {
                assert(t[i] == a[i + 1] && t[i + 1] == a[i + 2]);
            }
        }
        lemma_split_after_piece(t, rest);
        assert(s.drop_first() == t + sep + rest);
        assert(seq![a[0]] + t == a);
    }
}

proof fn lemma_split_join(parts: Seq<Seq<char>>)
    requires
        parts.len() > 0,
        forall|i: int| 0 <= i < parts.len() ==> has_no_separator(#[trigger] parts[i]),
    ensures
        split_seq(join_seq(parts, statement_separator()), statement_separator()) == parts,
    decreases parts.len(),
{
    if parts.len() == 1 {
        assert(has_no_separator(parts[0]));
        lemma_split_without_separator(parts[0]);
        assert(parts == seq![parts[0]]);
    } else {
        let rest = parts.skip(1);
        assert forall|i: int| 0 <= i < rest.len() implies has_no_separator(#[trigger] rest[i]) by {
            assert(rest[i] == parts[i + 1]);
        }
        lemma_split_join(rest);
        assert(has_no_separator(parts[0]));
        lemma_split_after_piece(parts[0], join_seq(rest, statement_separator()));
        assert(seq![parts[0]] + rest == parts);
    }
}

proof fn lemma_collect_clean(parts: Seq<Seq<char>>)
    requires
        forall|i: int| 0 <= i < parts.len() ==> is_clean_statement(#[trigger] parts[i]),
    ensures
        collect_statements(parts) == parts,
    decreases parts.len(),
{
    if parts.len() > 0 {
        let st = parts[0];
        assert(is_clean_statement(st));
        assert(statement_of(st) == Some(st));
        let rest = parts.skip(1);
        assert forall|i: int| 0 <= i < rest.len() implies is_clean_statement(#[trigger] rest[i]) by {
            assert(rest[i] == parts[i + 1]);
        }
        lemma_collect_clean(rest);
        assert(seq![st] + rest == parts);
    }
}

/// Statements written one after another, each followed by `;` and a newline
/// but the last, come back out of the splitter exactly as they were written,
/// in the same order.
pub proof fn law_joined_statements_split_back(stmts: Seq<Seq<char>>)
    requires
        forall|i: int| 0 <= i < stmts.len() ==> is_clean_statement(#[trigger] stmts[i]),
    ensures
        sql_statements(join_seq(stmts, statement_separator())) == stmts,
{
    let sep = statement_separator();
    if stmts.len() == 0 {
        let e = Seq::<char>::empty();
        assert(join_seq(stmts, sep) == e);
        assert(replace_crlf(e) == e);
        assert(split_seq(e, sep) == seq![e]);
        assert(trim_start_seq(e) == e);
        assert(trim_end_seq(e) == e);
        assert(statement_of(e) is None);
        assert(seq![e][0] == e);
        assert(seq![e].skip(1) =~= Seq::<Seq<char>>::empty());
        assert(collect_statements(seq![e]) == collect_statements(seq![e].skip(1)));
        assert(collect_statements(Seq::<Seq<char>>::empty()) == Seq::<Seq<char>>::empty());
        assert(stmts =~= Seq::<Seq<char>>::empty());
    } else {
        assert forall|i: int| 0 <= i < stmts.len() implies has_no_cr(#[trigger] stmts[i]) by {
            assert(is_clean_statement(stmts[i]));
        }
        assert forall|i: int| 0 <= i < stmts.len() implies has_no_separator(#[trigger] stmts[i]) by {
            assert(is_clean_statement(stmts[i]));
        }
        lemma_join_no_cr(stmts);
        lemma_replace_crlf_no_cr(join_seq(stmts, sep));
        lemma_split_join(stmts);
        lemma_collect_clean(stmts);
        let j = join_seq(stmts, sep);
        assert(replace_crlf(j) == j);
        assert(split_seq(j, sep) == stmts);
        assert(sql_statements(j) == collect_statements(split_seq(replace_crlf(j), sep)));
    }
}

/// Text without `\r` passes through CRLF normalisation unchanged, in front
/// of whatever follows it.
proof fn lemma_replace_crlf_prefix(a: Seq<char>, b: Seq<char>)
    requires
        has_no_cr(a),
    ensures
        replace_crlf(a + b) == a + replace_crlf(b),
    decreases a.len(),
{
    if a.len() > 0 {
        let t = a.skip(1);
        assert(has_no_cr(t)) by {
            assert forall|i: int| 0 <= i < t.len() implies #[trigger] t[i] != '\r' by {
                assert(t[i] == a[i + 1]);
            }
        }
        lemma_replace_crlf_prefix(t, b);
        assert(a[0] != '\r');
        assert((a + b)[0] == a[0]);
        assert((a + b).skip(1) =~= t + b);
        assert(seq![a[0]] + t =~= a);
        assert(seq![a[0]] + (t + replace_crlf(b)) =~= a + replace_crlf(b));
    } else {
        assert(a + b =~= b);
        assert(a + replace_crlf(b) =~= replace_crlf(b));
    }
}

/// Statements joined by `;` and CRLF normalise to the same statements joined
/// by `;` and a newline.
proof fn lemma_replace_crlf_join(parts: Seq<Seq<char>>)
    requires
        forall|i: int| 0 <= i < parts.len() ==> has_no_cr(#[trigger] parts[i]),
    ensures
        replace_crlf(join_seq(parts, seq![';', '\r', '\n'])) == join_seq(parts, statement_separator()),
    decreases parts.len(),
{
    let crlf = seq![';', '\r', '\n'];
    let lf = statement_separator();
    if parts.len() > 1 {
        let rest = parts.skip(1);
        assert forall|i: int| 0 <= i < rest.len() implies has_no_cr(#[trigger] rest[i]) by {
            assert(rest[i] == parts[i + 1]);
        }
        lemma_replace_crlf_join(rest);
        let a = parts[0];
        assert(has_no_cr(a));
        let jr = join_seq(rest, crlf);
        let head = a + seq![';'];
        assert(has_no_cr(head)) by {
            assert forall|i: int| 0 <= i < head.len() implies #[trigger] head[i] != '\r' by {
                if i < a.len() {
                    assert(head[i] == a[i]);
                } else {
                    assert(head[i] == ';');
                }
            }
        }
        let tail = seq!['\r', '\n'] + jr;
        lemma_replace_crlf_prefix(head, tail);
        assert(tail.len() >= 2 && tail[0] == '\r' && tail[1] == '\n');
        assert(tail.skip(2) =~= jr);
        assert(replace_crlf(tail) == seq!['\n'] + replace_crlf(jr));
        assert(join_seq(parts, crlf) == a + crlf + jr);
        assert(a + crlf + jr =~= head + tail);
        assert(join_seq(parts, lf) == a + lf + join_seq(rest, lf));
        assert(a + lf + join_seq(rest, lf) =~= head + (seq!['\n'] + join_seq(rest, lf)));
    } else if parts.len() == 1 {
        lemma_replace_crlf_no_cr(parts[0]);
    } else {
        assert(replace_crlf(Seq::<char>::empty()) == Seq::<char>::empty());
    }
}

/// A migration file written with Windows line endings splits as the same file
/// written with `\n` does: statements followed by `;` and CRLF, but the last,
/// come back out exactly as they were written, in the same order.
pub proof fn law_crlf_joined_statements_split_back(stmts: Seq<Seq<char>>)
    requires
        forall|i: int| 0 <= i < stmts.len() ==> is_clean_statement(#[trigger] stmts[i]),
    ensures
        sql_statements(join_seq(stmts, seq![';', '\r', '\n'])) == stmts,
{
    assert forall|i: int| 0 <= i < stmts.len() implies has_no_cr(#[trigger] stmts[i]) by {
        assert(is_clean_statement(stmts[i]));
    }
    lemma_replace_crlf_join(stmts);
    let lf_text = join_seq(stmts, statement_separator());
    lemma_join_no_cr(stmts);
    lemma_replace_crlf_no_cr(lf_text);
    law_joined_statements_split_back(stmts);
}

proof fn lemma_statement_of_trimmed(piece: Seq<char>)
    ensures
        match statement_of(piece) {
            Some(st) => st.len() > 0 && trim_seq(st) == st,
            None => true,
        },
{
    law_trim_idempotent(piece);
    let t = trim_seq(piece);
    if t.len() > 0 && t.last() == ';' {
        law_trim_idempotent(trim_end_matches_seq(t, seq![';']));
    }
}

proof fn lemma_collect_trimmed(pieces: Seq<Seq<char>>)
    ensures
        forall|i: int|
            0 <= i < collect_statements(pieces).len() ==> (#[trigger] collect_statements(pieces)[i]).len()
                > 0 && trim_seq(collect_statements(pieces)[i]) == collect_statements(pieces)[i],
    decreases pieces.len(),
{
    if pieces.len() > 0 {
        lemma_collect_trimmed(pieces.skip(1));
        lemma_statement_of_trimmed(pieces[0]);
        let rest = collect_statements(pieces.skip(1));
        match statement_of(pieces[0]) {
            Some(st) => {
                let all = seq![st] + rest;
                assert(collect_statements(pieces) == all);
                assert forall|i: int| 0 <= i < all.len() implies (#[trigger] all[i]).len() > 0
                    && trim_seq(all[i]) == all[i] by {
                    if i > 0 {
                        assert(all[i] == rest[i - 1]);
                    }
                }
            },
            None => {},
        }
    }
}

/// Every statement run from a migration file is non-empty and has no
/// whitespace at either end.
pub proof fn law_statements_are_trimmed(sql: Seq<char>)
    ensures
        forall|i: int|
            0 <= i < sql_statements(sql).len() ==> (#[trigger] sql_statements(sql)[i]).len() > 0
                && trim_seq(sql_statements(sql)[i]) == sql_statements(sql)[i],
{
    lemma_collect_trimmed(split_seq(replace_crlf(sql), statement_separator()));
}

} // verus!
