//! The environment-file parser: KEY=VALUE lines, split on the first `=`.
//! Lines without `=` are silently dropped.  No quoting, comments or
//! multi-line values: downstream consumers depend on these permissive
//! semantics, so they are preserved exactly.

use vstd::prelude::*;
use vstd::string::*;

verus! {

/// A KEY=VALUE pair from a project's environment file.  Ownership is
/// per-request; nothing is cached.
pub struct ProjectEnvVar {
    pub key: String,
    pub value: String,
}

impl View for ProjectEnvVar {
    type V = (Seq<char>, Seq<char>);

    open spec fn view(&self) -> (Seq<char>, Seq<char>) {
        (self.key@, self.value@)
    }
}

/// The views of a sequence of parsed pairs.
pub open spec fn env_vars_view(vs: Seq<ProjectEnvVar>) -> Seq<(Seq<char>, Seq<char>)> {
    vs.map_values(|v: ProjectEnvVar| v@)
}

/// Splits at the first occurrence of `sep`: the part before it and the part
/// after it, or `None` when `sep` does not occur.
pub open spec fn split_first(s: Seq<char>, sep: char) -> Option<(Seq<char>, Seq<char>)>
    decreases s.len(),
{
    if s.len() == 0 {
        None
    } else if s[0] == sep {
        Some((Seq::empty(), s.drop_first()))
    } else {
        match split_first(s.drop_first(), sep) {
            None => None,
            Some(p) => Some((seq![s[0]] + p.0, p.1)),
        }
    }
}

/// The lines of a text, split on newline characters.  A trailing newline
/// contributes a final empty line, which never carries an entry.
pub open spec fn split_lines(s: Seq<char>) -> Seq<Seq<char>>
    decreases s.len(),
{
    if s.len() == 0 {
        seq![Seq::<char>::empty()]
    } else {
        let rest = split_lines(s.drop_first());
        if s[0] == '\n' {
            seq![Seq::<char>::empty()] + rest
        } else {
            seq![seq![s[0]] + rest[0]] + rest.drop_first()
        }
    }
}

/// The entry a single line contributes: its split on the first `=`.
pub open spec fn env_entry(line: Seq<char>) -> Option<(Seq<char>, Seq<char>)> {
    split_first(line, '=')
}

/// The entries of a sequence of lines, dropping lines without `=`.
pub open spec fn env_entries(lines: Seq<Seq<char>>) -> Seq<(Seq<char>, Seq<char>)>
    decreases lines.len(),
{
    if lines.len() == 0 {
        Seq::empty()
    } else {
        let rest = env_entries(lines.drop_first());
        match env_entry(lines[0]) {
            Some(p) => seq![p] + rest,
            None => rest,
        }
    }
}

/// The meaning of an environment file's whole text.
pub open spec fn parsed_env(s: Seq<char>) -> Seq<(Seq<char>, Seq<char>)> {
    env_entries(split_lines(s))
}

proof fn lemma_split_lines_nonempty(s: Seq<char>)
    ensures
        split_lines(s).len() >= 1,
    decreases s.len(),
{
    if s.len() > 0 {
        lemma_split_lines_nonempty(s.drop_first());
    }
}

/// Characterizes `split_first` by the position of the first separator: when
/// the first `k` characters are not `sep`, either `k` is the whole length
/// (no separator at all) or the split happens exactly at `k`.
proof fn lemma_split_first_at(s: Seq<char>, sep: char, k: int)
    requires
        0 <= k <= s.len(),
        forall|j: int| 0 <= j < k ==> s[j] != sep,
    ensures
        k == s.len() ==> split_first(s, sep) is None,
        k < s.len() && s[k] == sep ==> split_first(s, sep) == Some((s.take(k), s.skip(k + 1))),
    decreases s.len(),
{
    if s.len() == 0 {
    } else if k == 0 {
        if s[0] == sep {
            assert(s.take(0) =~= Seq::<char>::empty());
            assert(s.skip(1) =~= s.drop_first());
        }
    } else {
        assert(forall|j: int| 0 <= j < k - 1 ==> s.drop_first()[j] != sep);
        lemma_split_first_at(s.drop_first(), sep, k - 1);
        if k == s.len() {
        } else if s[k] == sep {
            assert(s.drop_first()[k - 1] == sep);
            assert(seq![s[0]] + s.drop_first().take(k - 1) =~= s.take(k));
            assert(s.drop_first().skip(k) =~= s.skip(k + 1));
        }
    }
}

/// Characterizes `split_lines` by the position of the first newline: when
/// the first `k` characters are not newlines, either there is no newline at
/// all and the text is one line, or the first line ends exactly at `k`.
proof fn lemma_split_lines_prefix(s: Seq<char>, k: int)
    requires
        0 <= k <= s.len(),
        forall|j: int| 0 <= j < k ==> s[j] != '\n',
    ensures
        k == s.len() ==> split_lines(s) == seq![s],
        k < s.len() && s[k] == '\n' ==> split_lines(s) == seq![s.take(k)] + split_lines(
            s.skip(k + 1),
        ),
    decreases s.len(),
{
    if s.len() == 0 {
        assert(s =~= Seq::<char>::empty());
        assert(split_lines(s) == seq![Seq::<char>::empty()]);
    } else if k == 0 {
        if s[0] == '\n' {
            assert(s.take(0) =~= Seq::<char>::empty());
            assert(s.skip(1) =~= s.drop_first());
        }
    } else {
        assert(forall|j: int| 0 <= j < k - 1 ==> s.drop_first()[j] != '\n');
        lemma_split_lines_prefix(s.drop_first(), k - 1);
        lemma_split_lines_nonempty(s.drop_first());
        let rest = split_lines(s.drop_first());
        assert(s[0] != '\n');
        if k == s.len() {
            assert(rest == seq![s.drop_first()]);
            assert(seq![s[0]] + s.drop_first() =~= s);
            assert(rest.drop_first() =~= Seq::<Seq<char>>::empty());
            assert(split_lines(s) =~= seq![s]);
        } else if s[k] == '\n' {
            assert(s.drop_first()[k - 1] == '\n');
            let tail_lines = split_lines(s.drop_first().skip(k));
            assert(rest == seq![s.drop_first().take(k - 1)] + tail_lines);
            assert(rest[0] == s.drop_first().take(k - 1));
            assert(seq![s[0]] + s.drop_first().take(k - 1) =~= s.take(k));
            assert(rest.drop_first() =~= tail_lines);
            assert(s.drop_first().skip(k) =~= s.skip(k + 1));
            assert(split_lines(s) =~= seq![s.take(k)] + split_lines(s.skip(k + 1)));
        }
    }
}

proof fn lemma_no_trailing_entries(s: Seq<char>)
    requires
        s.len() == 0,
    ensures
        env_entries(split_lines(s)) == Seq::<(Seq<char>, Seq<char>)>::empty(),
{
    assert(split_lines(s) == seq![Seq::<char>::empty()]);
    assert(seq![Seq::<char>::empty()].drop_first() =~= Seq::<Seq<char>>::empty());
    assert(env_entries(Seq::<Seq<char>>::empty()) == Seq::<(Seq<char>, Seq<char>)>::empty());
    assert(env_entry(Seq::<char>::empty()) is None);
    assert(env_entries(seq![Seq::<char>::empty()]) == Seq::<(Seq<char>, Seq<char>)>::empty());
}

proof fn lemma_env_entries_cons(l: Seq<char>, rest: Seq<Seq<char>>)
    ensures
        env_entries(seq![l] + rest) == (match env_entry(l) {
            Some(p) => seq![p] + env_entries(rest),
            None => env_entries(rest),
        }),
{
    let lines = seq![l] + rest;
    assert(lines[0] == l);
    assert(lines.drop_first() =~= rest);
}

/// Parses one line of an environment file: split on the first `=`, or no
/// entry at all when the line has no `=`.
pub fn parse_env_line(line: &str) -> (r: Option<ProjectEnvVar>)
    ensures
        r matches Some(v) ==> env_entry(line@) == Some((v.key@, v.value@)),
        r is None ==> env_entry(line@) is None,
{
    let n = line.unicode_len();
    let mut j: usize = 0;
    while j < n && line.get_char(j) != '='
        invariant
            j <= n,
            n == line@.len(),
            forall|t: int| 0 <= t < j ==> line@[t] != '=',
        decreases n - j,
    {
        j += 1;
    }
    if j < n {
        proof {
            lemma_split_first_at(line@, '=', j as int);
        }
        let key = line.substring_char(0, j);
        let value = line.substring_char(j + 1, n);
        proof {
            assert(key@ =~= line@.take(j as int));
            assert(value@ =~= line@.skip(j as int + 1));
        }
        Some(ProjectEnvVar { key: key.to_owned(), value: value.to_owned() })
    } else {
        proof {
            lemma_split_first_at(line@, '=', n as int);
        }
        None
    }
}

/// Parses the contents of an environment file line by line.
pub fn parse_env_file(contents: &str) -> (r: Vec<ProjectEnvVar>)
    ensures
        env_vars_view(r@) == parsed_env(contents@),
{
    let n = contents.unicode_len();
    let mut out: Vec<ProjectEnvVar> = Vec::new();
    let mut start: usize = 0;
    proof {
        assert(contents@.skip(0int) =~= contents@);
        assert(env_vars_view(out@) + env_entries(split_lines(contents@)) =~= env_entries(
            split_lines(contents@),
        ));
    }
    while start < n
        invariant
            start <= n,
            n == contents@.len(),
            parsed_env(contents@) == env_vars_view(out@) + env_entries(
                split_lines(contents@.skip(start as int)),
            ),
        decreases n - start,
    {
        let ghost suffix = contents@.skip(start as int);
        let mut k: usize = start;
        while k < n && contents.get_char(k) != '\n'
            invariant
                start <= k <= n,
                n == contents@.len(),
                forall|t: int| start <= t < k ==> contents@[t] != '\n',
            decreases n - k,
        {
            k += 1;
        }
        proof {
            assert forall|t: int| 0 <= t < k as int - start as int implies suffix[t] != '\n' by {
                assert(suffix[t] == contents@[start as int + t]);
            }
            lemma_split_lines_prefix(suffix, k as int - start as int);
        }
        let line = contents.substring_char(start, k);
        proof {
            assert(line@ =~= suffix.take(k as int - start as int));
        }
        let ghost out_old = out@;
        let parsed_line = parse_env_line(line);
        match parsed_line {
            Some(v) => {
                out.push(v);
                proof {
                    assert(env_vars_view(out@) =~= env_vars_view(out_old) + seq![v@]);
                }
            },
            None => {},
        }
        if k < n {
            proof {
                assert(suffix[k as int - start as int] == contents@[k as int]);
                assert(suffix.skip(k as int - start as int + 1) =~= contents@.skip(k as int + 1));
                let tail_lines = split_lines(contents@.skip(k as int + 1));
                assert(split_lines(suffix) == seq![line@] + tail_lines);
                lemma_env_entries_cons(line@, tail_lines);
                match env_entry(line@) {
                    Some(p) => {
                        assert(env_vars_view(out_old) + (seq![p] + env_entries(tail_lines))
                            =~= env_vars_view(out@) + env_entries(tail_lines));
                    },
                    None => {},
                }
            }
            start = k + 1;
        } else {
            proof {
                assert(line@ =~= suffix);
                assert(split_lines(suffix) == seq![line@]);
                assert(seq![line@] + Seq::<Seq<char>>::empty() =~= seq![line@]);
                lemma_env_entries_cons(line@, Seq::<Seq<char>>::empty());
                assert(env_entries(Seq::<Seq<char>>::empty()) =~= Seq::<
                    (Seq<char>, Seq<char>),
                >::empty());
                let empty_suffix = contents@.skip(n as int);
                assert(empty_suffix.len() == 0);
                lemma_no_trailing_entries(empty_suffix);
                match env_entry(line@) {
                    Some(p) => {
                        assert(env_vars_view(out_old) + (seq![p] + Seq::<
                            (Seq<char>, Seq<char>),
                        >::empty()) =~= env_vars_view(out@) + Seq::<
                            (Seq<char>, Seq<char>),
                        >::empty());
                        assert(seq![p] + Seq::<(Seq<char>, Seq<char>)>::empty() =~= seq![p]);
                    },
                    None => {
                        assert(env_vars_view(out@) + Seq::<(Seq<char>, Seq<char>)>::empty()
                            =~= env_vars_view(out@));
                    },
                }
            }
            start = n;
        }
    }
    proof {
        let empty_suffix = contents@.skip(start as int);
        assert(empty_suffix.len() == 0);
        lemma_no_trailing_entries(empty_suffix);
        assert(env_vars_view(out@) + Seq::<(Seq<char>, Seq<char>)>::empty() =~= env_vars_view(
            out@,
        ));
    }
    out
}

/// A line without `=` contributes no entry: it is silently dropped, not an
/// error.
pub proof fn lemma_line_without_eq_dropped(line: Seq<char>)
    requires
        forall|j: int| 0 <= j < line.len() ==> line[j] != '=',
    ensures
        env_entry(line) is None,
{
    lemma_split_first_at(line, '=', line.len() as int);
}

/// The split happens at the first `=` only: the line is exactly the key,
/// one `=`, and the value, and the key holds no `=` — everything after the
/// first `=`, including further `=` characters, lands in the value.
pub proof fn lemma_env_entry_splits_at_first_eq(line: Seq<char>, key: Seq<char>, value: Seq<char>)
    requires
        env_entry(line) == Some((key, value)),
    ensures
        line =~= key + seq!['='] + value,
        forall|j: int| 0 <= j < key.len() ==> key[j] != '=',
    decreases line.len(),
{
    if line.len() == 0 {
    } else if line[0] == '=' {
        assert(key == Seq::<char>::empty());
        assert(value == line.drop_first());
        assert(line =~= key + seq!['='] + value);
    } else {
        match split_first(line.drop_first(), '=') {
            Some(p) => {
                lemma_env_entry_splits_at_first_eq(line.drop_first(), p.0, p.1);
                assert(key == seq![line[0]] + p.0);
                assert(value == p.1);
                assert(line =~= seq![line[0]] + line.drop_first());
                assert(line =~= key + seq!['='] + value);
                assert forall|j: int| 0 <= j < key.len() implies key[j] != '=' by {
                    if j == 0 {
                        assert(key[0] == line[0]);
                    } else {
                        assert(key[j] == p.0[j - 1]);
                    }
                }
            },
            None => {},
        }
    }
}

/// An empty file parses to no entries.
pub proof fn lemma_empty_contents(s: Seq<char>)
    requires
        s.len() == 0,
    ensures
        parsed_env(s) == Seq::<(Seq<char>, Seq<char>)>::empty(),
{
    lemma_no_trailing_entries(s);
}

} // verus!
