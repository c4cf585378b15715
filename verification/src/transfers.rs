//! File relay: what a copied file list is, and how a transfer is laid out.
use crate::error::RelayError;
use crate::digest::{is_digest_hex, sha256_hex, spec_sha256_hex};
use crate::models::{copy_opt_string, opt_string_view, strings_view, StringView, TransferEntry, TransferEntryKind, TransferJob};
use crate::seqs::{insertion_sort_ignores_arrangement, insertion_sorted, lemma_filter_push, lemma_first_greater_at, total_on};
use crate::text::{all_whitespace, chars_of, decimal, is_blank, spec_decimal, string_from_chars};
use vstd::prelude::*;
use vstd::utf8::encode_utf8;
use vstd::string::StringSliceAdditionalSpecFns;

verus! {

/// At most this many transfers move data at the same time.
pub const MAX_ACTIVE_TRANSFER_JOBS: usize = 2;

/// The size of the chunks in which file contents travel.
pub const TRANSFER_CHUNK_SIZE: usize = 1024 * 1024;

/// A list of files and folders that the user copied.
#[derive(Clone, Debug)]
pub struct LocalFileClipboard {
    pub paths: Vec<String>,
    pub hash: String,
    pub display_name: String,
}


// Paths are handled as text with `/` between their parts, as on the platforms the relay
// runs its file logic on; the caller turns native paths into such text and back.

/// The pieces of a text between the separators, empty pieces included.
pub open spec fn spec_split(p: Seq<char>, sep: char) -> Seq<Seq<char>>
    decreases p.len(),
{
    if p.len() == 0 {
        seq![Seq::<char>::empty()]
    } else {
        let prev = spec_split(p.drop_last(), sep);
        if p.last() == sep {
            prev.push(Seq::empty())
        } else {
            prev.update(prev.len() - 1, prev.last().push(p.last()))
        }
    }
}

proof fn lemma_split_nonempty(p: Seq<char>, sep: char)
    ensures
        spec_split(p, sep).len() >= 1,
    decreases p.len(),
{
    if p.len() > 0 {
        lemma_split_nonempty(p.drop_last(), sep);
    }
}

/// The pieces of a path between its separators, empty pieces included.
pub open spec fn spec_segments(p: Seq<char>) -> Seq<Seq<char>> {
    spec_split(p, '/')
}

proof fn lemma_segments_nonempty(p: Seq<char>)
    ensures
        spec_segments(p).len() >= 1,
{
    lemma_split_nonempty(p, '/');
}

/// A piece that names an entry: not empty and not the current directory.
pub open spec fn is_name_segment(s: Seq<char>) -> bool {
    s.len() > 0 && s != seq!['.']
}

/// The components of a path as the platform's path type reports them: the root, or a
/// leading `.`, then every piece that names an entry (`..` included); empty pieces and
/// inner `.` pieces are dropped.
pub open spec fn spec_components(p: Seq<char>) -> Seq<Seq<char>> {
    let segs = spec_segments(p);
    let head: Seq<Seq<char>> = if p.len() > 0 && p[0] == '/' {
        seq![seq!['/']]
    } else if segs[0] == seq!['.'] {
        seq![seq!['.']]
    } else {
        Seq::empty()
    };
    head + segs.filter(|s: Seq<char>| is_name_segment(s))
}

/// The last component, when it names an entry (not the root, `.` or `..`).
pub open spec fn spec_file_name(p: Seq<char>) -> Option<Seq<char>> {
    let c = spec_components(p);
    if c.len() == 0 {
        None
    } else if c.last() == seq!['/'] || c.last() == seq!['.'] || c.last() == seq!['.', '.'] {
        None
    } else {
        Some(c.last())
    }
}

/// Parts joined with a separator between each two.
pub open spec fn spec_join(parts: Seq<Seq<char>>, sep: char) -> Seq<char>
    decreases parts.len(),
{
    if parts.len() == 0 {
        Seq::empty()
    } else if parts.len() == 1 {
        parts[0]
    } else {
        spec_join(parts.drop_last(), sep).push(sep) + parts.last()
    }
}

/// A path written with its components joined by `/`.
pub open spec fn spec_normalize_relative_path(p: Seq<char>) -> Seq<char> {
    spec_join(spec_components(p), '/')
}

fn segments_of(chars: &Vec<char>) -> (r: Vec<Vec<char>>)
    ensures
        r@.len() == spec_segments(chars@).len(),
        forall|k: int| 0 <= k < r@.len() ==> #[trigger] r@[k]@ == spec_segments(chars@)[k],
{
    split_chars(chars, '/')
}

/// The pieces of a text between the separators.
pub fn split_chars(chars: &Vec<char>, sep: char) -> (r: Vec<Vec<char>>)
    ensures
        r@.len() == spec_split(chars@, sep).len(),
        forall|k: int| 0 <= k < r@.len() ==> #[trigger] r@[k]@ == spec_split(chars@, sep)[k],
{
    let mut r: Vec<Vec<char>> = Vec::new();
    let mut cur: Vec<char> = Vec::new();
    let mut i: usize = 0;
    proof {
        assert(chars@.take(0) =~= Seq::<char>::empty());
    }
    while i < chars.len()
        invariant
            i <= chars@.len(),
            r@.len() + 1 == spec_split(chars@.take(i as int), sep).len(),
            forall|k: int| 0 <= k < r@.len() ==> #[trigger] r@[k]@ == spec_split(chars@.take(i as int), sep)[k],
            cur@ == spec_split(chars@.take(i as int), sep).last(),
        decreases chars.len() - i,
    {
        let ghost before = chars@.take(i as int);
        proof {
            assert(chars@.take(i + 1).drop_last() =~= before);
            lemma_split_nonempty(before, sep);
        }
        let c = chars[i];
        if c == sep {
            r.push(cur);
            cur = Vec::new();
        } else {
            cur.push(c);
        }
        i = i + 1;
        proof {
            let now = spec_split(chars@.take(i as int), sep);
            assert(chars@.take(i as int).last() == c);
            assert forall|k: int| 0 <= k < r@.len() implies #[trigger] r@[k]@ == now[k] by {}
        }
    }
    proof {
        assert(chars@.take(chars@.len() as int) =~= chars@);
        lemma_split_nonempty(chars@, sep);
    }
    r.push(cur);
    r
}

fn is_dot(s: &Vec<char>) -> (r: bool)
    ensures
        r == (s@ == seq!['.']),
{
    if s.len() == 1 && s[0] == '.' {
        assert(s@ =~= seq!['.']);
        true
    } else {
        false
    }
}

fn is_dot_dot(s: &Vec<char>) -> (r: bool)
    ensures
        r == (s@ == seq!['.', '.']),
{
    if s.len() == 2 && s[0] == '.' && s[1] == '.' {
        assert(s@ =~= seq!['.', '.']);
        true
    } else {
        false
    }
}

fn is_root(s: &Vec<char>) -> (r: bool)
    ensures
        r == (s@ == seq!['/']),
{
    if s.len() == 1 && s[0] == '/' {
        assert(s@ =~= seq!['/']);
        true
    } else {
        false
    }
}

/// The components of a path, as character lists.
fn components_of(p: &str) -> (r: Vec<Vec<char>>)
    ensures
        r@.len() == spec_components(p@).len(),
        forall|k: int| 0 <= k < r@.len() ==> #[trigger] r@[k]@ == spec_components(p@)[k],
{
    let chars = chars_of(p);
    let segs = segments_of(&chars);
    let ghost all = spec_segments(p@);
    proof {
        lemma_segments_nonempty(p@);
        assert(segs@[0]@ == all[0]);
    }
    let mut r: Vec<Vec<char>> = Vec::new();
    if chars.len() > 0 && chars[0] == '/' {
        let mut root: Vec<char> = Vec::new();
        root.push('/');
        r.push(root);
    } else if is_dot(&segs[0]) {
        let mut dot: Vec<char> = Vec::new();
        dot.push('.');
        r.push(dot);
    }
    let ghost head = r@.len();
    proof {
        assert(r@.len() == 1 ==> r@[0]@ =~= (if p@.len() > 0 && p@[0] == '/' { seq!['/'] } else { seq!['.'] }));
        assert(all.take(0).filter(|s: Seq<char>| is_name_segment(s)) =~= Seq::<Seq<char>>::empty());
    }
    let mut i: usize = 0;
    while i < segs.len()
        invariant
            i <= segs@.len(),
            segs@.len() == all.len(),
            forall|k: int| 0 <= k < segs@.len() ==> #[trigger] segs@[k]@ == all[k],
            head <= 1,
            r@.len() == head + all.take(i as int).filter(|s: Seq<char>| is_name_segment(s)).len(),
            head == 1 ==> r@[0]@ == (if p@.len() > 0 && p@[0] == '/' { seq!['/'] } else { seq!['.'] }),
            head == 1 <==> (p@.len() > 0 && p@[0] == '/') || all[0] == seq!['.'],
            forall|k: int| 0 <= k < r@.len() - head ==> #[trigger] r@[k + head]@ == all.take(i as int).filter(|s: Seq<char>| is_name_segment(s))[k],
        decreases segs.len() - i,
    {
        proof {
            assert(all.take(i + 1) =~= all.take(i as int).push(all[i as int]));
            crate::seqs::lemma_filter_push(all.take(i as int), |s: Seq<char>| is_name_segment(s), all[i as int]);
        }
        let s = &segs[i];
        if s.len() > 0 && !is_dot(s) {
            r.push(segs[i].clone());
        }
        i = i + 1;
    }
    proof {
        assert(all.take(all.len() as int) =~= all);
        let spec_r = spec_components(p@);
        assert forall|k: int| 0 <= k < r@.len() implies #[trigger] r@[k]@ == spec_r[k] by {
            if k >= head {
                assert(r@[(k - head) + head]@ == all.filter(|s: Seq<char>| is_name_segment(s))[k - head]);
            }
        }
    }
    r
}

fn join_with(parts: &Vec<Vec<char>>, sep: char) -> (r: Vec<char>)
    ensures
        r@ == spec_join(parts@.map_values(|v: Vec<char>| v@), sep),
{
    let ghost views = parts@.map_values(|v: Vec<char>| v@);
    let mut r: Vec<char> = Vec::new();
    let mut i: usize = 0;
    while i < parts.len()
        invariant
            i <= parts@.len(),
            views == parts@.map_values(|v: Vec<char>| v@),
            r@ == spec_join(views.take(i as int), sep),
        decreases parts.len() - i,
    {
        proof {
            assert(views.take(i + 1).drop_last() =~= views.take(i as int));
        }
        if i > 0 {
            r.push(sep);
        }
        let part = &parts[i];
        let mut j: usize = 0;
        let ghost start = r@;
        while j < part.len()
            invariant
                j <= part@.len(),
                r@ == start + part@.take(j as int),
            decreases part.len() - j,
        {
            proof {
                assert(part@.take(j + 1) =~= part@.take(j as int).push(part@[j as int]));
            }
            r.push(part[j]);
            j = j + 1;
        }
        proof {
            assert(part@.take(part@.len() as int) =~= part@);
            assert(views.take(i + 1).last() == part@);
            if i == 0 {
                assert(start =~= Seq::<char>::empty());
                assert(r@ =~= part@);
            }
        }
        i = i + 1;
    }
    proof {
        assert(views.take(parts@.len() as int) =~= views);
    }
    r
}

/// The path written with its components joined by `/`.
pub fn normalize_relative_path(path: &str) -> (r: String)
    ensures
        r@ == spec_normalize_relative_path(path@),
{
    let comps = components_of(path);
    proof {
        assert(comps@.map_values(|v: Vec<char>| v@) =~= spec_components(path@));
    }
    let chars = join_with(&comps, '/');
    string_from_chars(&chars)
}

/// The last component of a path, when it names an entry.
pub fn file_name(path: &str) -> (r: Option<String>)
    ensures
        match r {
            Some(name) => spec_file_name(path@) == Some(name@),
            None => spec_file_name(path@) is None,
        },
{
    let comps = components_of(path);
    if comps.len() == 0 {
        return None;
    }
    let last = &comps[comps.len() - 1];
    if is_root(last) || is_dot(last) || is_dot_dot(last) {
        return None;
    }
    Some(string_from_chars(last))
}

/// The name shown for a path: its last component, or the whole path when that is missing
/// or blank.
pub open spec fn spec_display_name_for_path(p: Seq<char>) -> Seq<char> {
    match spec_file_name(p) {
        Some(f) => if all_whitespace(f) {
            p
        } else {
            f
        },
        None => p,
    }
}

/// The name shown for a path.
pub fn display_name_for_path(path: &str) -> (r: String)
    ensures
        r@ == spec_display_name_for_path(path@),
{
    match file_name(path) {
        Some(name) => {
            if is_blank(name.as_str()) {
                path.to_owned()
            } else {
                name
            }
        },
        None => path.to_owned(),
    }
}


/// The position of the last `.` in a name.
pub open spec fn last_dot(f: Seq<char>) -> Option<int>
    decreases f.len(),
{
    if f.len() == 0 {
        None
    } else if f.last() == '.' {
        Some(f.len() - 1)
    } else {
        last_dot(f.drop_last())
    }
}

/// A file name split into its stem and extension, as the platform's path type splits it:
/// at the last `.`, unless the name is `..`, has no `.`, or has its only `.` in front.
pub open spec fn spec_stem_and_extension(f: Seq<char>) -> (Seq<char>, Option<Seq<char>>) {
    if f == seq!['.', '.'] {
        (f, None)
    } else {
        match last_dot(f) {
            Some(i) => if i > 0 {
                (f.take(i), Some(f.skip(i + 1)))
            } else {
                (f, None)
            },
            None => (f, None),
        }
    }
}

fn last_dot_of(f: &Vec<char>) -> (r: Option<usize>)
    ensures
        match r {
            Some(i) => last_dot(f@) == Some(i as int) && i < f@.len(),
            None => last_dot(f@) is None,
        },
{
    let mut i: usize = f.len();
    assert(f@.take(f@.len() as int) =~= f@);
    while i > 0
        invariant
            i <= f@.len(),
            last_dot(f@) == last_dot(f@.take(i as int)),
        decreases i,
    {
        proof {
            assert(f@.take(i as int).drop_last() =~= f@.take(i - 1));
        }
        if f[i - 1] == '.' {
            return Some(i - 1);
        }
        i = i - 1;
    }
    None
}

fn stem_and_extension(f: &Vec<char>) -> (r: (Vec<char>, Option<Vec<char>>))
    ensures
        r.0@ == spec_stem_and_extension(f@).0,
        match r.1 {
            Some(e) => spec_stem_and_extension(f@).1 == Some(e@),
            None => spec_stem_and_extension(f@).1 is None,
        },
{
    if is_dot_dot(f) {
        return (f.clone(), None);
    }
    match last_dot_of(f) {
        Some(i) => {
            if i > 0 {
                let mut stem: Vec<char> = Vec::new();
                let mut ext: Vec<char> = Vec::new();
                let mut k: usize = 0;
                while k < f.len()
                    invariant
                        k <= f@.len(),
                        i < f@.len(),
                        k <= i ==> stem@ == f@.take(k as int) && ext@.len() == 0,
                        k > i ==> stem@ == f@.take(i as int) && ext@ == f@.subrange(i + 1, k as int),
                    decreases f.len() - k,
                {
                    if k < i {
                        proof {
                            assert(f@.take(k + 1) =~= f@.take(k as int).push(f@[k as int]));
                        }
                        stem.push(f[k]);
                    } else if k > i {
                        proof {
                            assert(f@.subrange(i + 1, k + 1) =~= f@.subrange(i + 1, k as int).push(f@[k as int]));
                        }
                        ext.push(f[k]);
                    } else {
                        assert(f@.subrange(i + 1, i + 1) =~= Seq::<char>::empty());
                    }
                    k = k + 1;
                }
                assert(ext@ =~= f@.skip(i + 1));
                (stem, Some(ext))
            } else {
                (f.clone(), None)
            }
        },
        None => (f.clone(), None),
    }
}

/// Every ` .` becomes `.`, read from the left.
pub open spec fn spec_close_dot_gaps(s: Seq<char>) -> Seq<char>
    decreases s.len(),
{
    if s.len() < 2 {
        s
    } else if s[0] == ' ' && s[1] == '.' {
        seq!['.'] + spec_close_dot_gaps(s.skip(2))
    } else {
        seq![s[0]] + spec_close_dot_gaps(s.skip(1))
    }
}

fn close_dot_gaps(s: &Vec<char>) -> (r: Vec<char>)
    ensures
        r@ == spec_close_dot_gaps(s@),
{
    let mut out: Vec<char> = Vec::new();
    let mut i: usize = 0;
    assert(s@.skip(0) =~= s@);
    assert(out@ + spec_close_dot_gaps(s@) =~= spec_close_dot_gaps(s@));
    while i < s.len()
        invariant
            i <= s@.len(),
            out@ + spec_close_dot_gaps(s@.skip(i as int)) == spec_close_dot_gaps(s@),
        decreases s.len() - i,
    {
        let ghost rest = s@.skip(i as int);
        if i + 1 < s.len() && s[i] == ' ' && s[i + 1] == '.' {
            proof {
                assert(rest.skip(2) =~= s@.skip(i + 2));
                assert(out@.push('.') + spec_close_dot_gaps(s@.skip(i + 2)) =~= out@ + spec_close_dot_gaps(rest));
            }
            out.push('.');
            i = i + 2;
        } else {
            proof {
                if rest.len() >= 2 {
                    assert(rest.skip(1) =~= s@.skip(i + 1));
                    assert(out@.push(s@[i as int]) + spec_close_dot_gaps(s@.skip(i + 1)) =~= out@ + spec_close_dot_gaps(rest));
                } else {
                    assert(rest =~= seq![s@[i as int]]);
                    assert(s@.skip(i + 1) =~= Seq::<char>::empty());
                    assert(out@.push(s@[i as int]) + spec_close_dot_gaps(s@.skip(i + 1)) =~= out@ + spec_close_dot_gaps(rest));
                }
            }
            out.push(s[i]);
            i = i + 1;
        }
    }
    proof {
        assert(s@.skip(i as int) =~= Seq::<char>::empty());
        assert(out@ + Seq::<char>::empty() =~= out@);
    }
    out
}

/// How often a name occurs in a list.
pub open spec fn occurrences(names: Seq<Seq<char>>, name: Seq<char>) -> nat {
    names.filter(equals_name(name)).len()
}

/// The names equal to `name`.
pub open spec fn equals_name(name: Seq<char>) -> spec_fn(Seq<char>) -> bool {
    |n: Seq<char>| n == name
}

/// A top-level name made unique by its number among equal names: the first keeps its name,
/// a later one gets ` (n)` after its stem, before its extension.
pub open spec fn spec_deduped_name(name: Seq<char>, count: nat) -> Seq<char> {
    if count <= 1 {
        name
    } else {
        let split = match spec_file_name(name) {
            Some(f) => spec_stem_and_extension(f),
            None => (name, None),
        };
        let numbered = split.0 + seq![' ', '('] + spec_decimal(count) + seq![')'];
        match split.1 {
            Some(ext) => spec_close_dot_gaps(numbered + seq![' ', '.'] + ext),
            None => numbered,
        }
    }
}

fn append(out: &mut Vec<char>, s: &Vec<char>)
    ensures
        final(out)@ == old(out)@ + s@,
{
    let mut i: usize = 0;
    let ghost start = out@;
    while i < s.len()
        invariant
            i <= s@.len(),
            out@ == start + s@.take(i as int),
        decreases s.len() - i,
    {
        proof {
            assert(s@.take(i + 1) =~= s@.take(i as int).push(s@[i as int]));
        }
        out.push(s[i]);
        i = i + 1;
    }
    assert(s@.take(s@.len() as int) =~= s@);
}

fn count_name(names: &Vec<String>, name: &str) -> (n: usize)
    ensures
        n == occurrences(names@.map_values(|s: String| s@), name@),
{
    let ghost views = names@.map_values(|s: String| s@);
    let target = name.to_owned();
    let mut n: usize = 0;
    let mut i: usize = 0;
    proof {
        assert(views.take(0).filter(|m: Seq<char>| m == name@) =~= Seq::<Seq<char>>::empty());
    }
    while i < names.len()
        invariant
            i <= names@.len(),
            target@ == name@,
            views == names@.map_values(|s: String| s@),
            n == occurrences(views.take(i as int), name@),
            n <= i,
        decreases names.len() - i,
    {
        proof {
            assert(views.take(i + 1) =~= views.take(i as int).push(views[i as int]));
            crate::seqs::lemma_filter_push(views.take(i as int), |m: Seq<char>| m == name@, views[i as int]);
        }
        if names[i] == target {
            n = n + 1;
        }
        i = i + 1;
    }
    assert(views.take(names@.len() as int) =~= views);
    n
}

/// Records a top-level name and returns it made unique among the names recorded before.
pub fn dedupe_top_level_name(name: String, seen: &mut Vec<String>) -> (r: String)
    ensures
        final(seen)@ == old(seen)@.push(name),
        r@ == spec_deduped_name(
            name@,
            occurrences(final(seen)@.map_values(|s: String| s@), name@),
        ),
{
    seen.push(name.clone());
    let count = count_name(seen, name.as_str());
    if count <= 1 {
        return name;
    }
    let ghost split = match spec_file_name(name@) {
        Some(f) => spec_stem_and_extension(f),
        None => (name@, None),
    };
    let (stem, ext) = match file_name(name.as_str()) {
        Some(f) => {
            let fc = chars_of(f.as_str());
            stem_and_extension(&fc)
        },
        None => (chars_of(name.as_str()), None),
    };
    assert(stem@ == split.0);
    assert(ext matches Some(e) ==> split.1 == Some(e@));
    assert(ext is None ==> split.1 is None);
    let mut numbered = stem;
    numbered.push(' ');
    numbered.push('(');
    let digits = chars_of(decimal(count as u64).as_str());
    append(&mut numbered, &digits);
    numbered.push(')');
    assert(numbered@ =~= split.0 + seq![' ', '('] + spec_decimal(count as nat) + seq![')']);
    match ext {
        Some(e) => {
            let mut joined = numbered;
            joined.push(' ');
            joined.push('.');
            append(&mut joined, &e);
            assert(joined@ =~= numbered@ + seq![' ', '.'] + e@);
            let closed = close_dot_gaps(&joined);
            string_from_chars(&closed)
        },
        None => string_from_chars(&numbered),
    }
}


/// A path with a name appended, as the platform's path type appends one: a name that starts
/// at the root replaces the path, and a separator goes between them unless the path is empty
/// or already ends with one.
pub open spec fn spec_path_push(base: Seq<char>, name: Seq<char>) -> Seq<char> {
    if name.len() > 0 && name[0] == '/' {
        name
    } else if base.len() == 0 {
        name
    } else if base.last() == '/' {
        base + name
    } else {
        base.push('/') + name
    }
}

/// A path with several names appended in turn.
pub open spec fn spec_push_names(base: Seq<char>, names: Seq<String>) -> Seq<char>
    decreases names.len(),
{
    if names.len() == 0 {
        base
    } else {
        spec_path_push(spec_push_names(base, names.drop_last()), names.last()@)
    }
}

/// A name that a folder listing gives for an entry: not empty, without a separator, and not
/// the current directory.
pub open spec fn is_simple_name(n: Seq<char>) -> bool {
    &&& n.len() > 0
    &&& n != seq!['.']
    &&& forall|i: int| 0 <= i < n.len() ==> #[trigger] n[i] != '/'
}

/// Appending text without a separator extends the last piece.
proof fn lemma_split_extend(p: Seq<char>, q: Seq<char>, sep: char)
    requires
        forall|i: int| 0 <= i < q.len() ==> #[trigger] q[i] != sep,
    ensures
        spec_split(p + q, sep) == spec_split(p, sep).update(
            spec_split(p, sep).len() - 1,
            spec_split(p, sep).last() + q,
        ),
    decreases q.len(),
{
    lemma_split_nonempty(p, sep);
    let s = spec_split(p, sep);
    if q.len() == 0 {
        assert(p + q =~= p);
        assert(s.update(s.len() - 1, s.last() + q) =~= s);
    } else {
        let q1 = q.drop_last();
        assert forall|i: int| 0 <= i < q1.len() implies #[trigger] q1[i] != sep by {
            assert(q1[i] == q[i]);
        }
        lemma_split_extend(p, q1, sep);
        assert((p + q).drop_last() =~= p + q1);
        assert((p + q).last() == q.last());
        assert(q.last() != sep);
        let prev = spec_split(p + q1, sep);
        assert(prev.last() == s.last() + q1);
        assert(prev.last().push(q.last()) =~= s.last() + q);
        assert(prev.update(prev.len() - 1, prev.last().push(q.last())) =~= s.update(
            s.len() - 1,
            s.last() + q,
        ));
    }
}

/// Appending a simple name to a path adds it as the last component.
pub proof fn lemma_components_push(base: Seq<char>, name: Seq<char>)
    requires
        is_simple_name(name),
    ensures
        spec_components(spec_path_push(base, name)) == spec_components(base).push(name),
{
    let keep = |s: Seq<char>| is_name_segment(s);
    let empty: Seq<char> = Seq::empty();
    lemma_split_nonempty(base, '/');
    let s = spec_split(base, '/');
    assert(name[0] != '/');
    if base.len() == 0 {
        lemma_split_extend(base, name, '/');
        assert(base + name =~= name);
        assert(s =~= seq![empty]);
        let segs = spec_split(name, '/');
        assert(segs =~= seq![name]);
        assert(seq![empty].filter(keep) =~= Seq::<Seq<char>>::empty()) by {
            lemma_filter_push(Seq::<Seq<char>>::empty(), keep, empty);
            assert(Seq::<Seq<char>>::empty().filter(keep) =~= Seq::<Seq<char>>::empty()) by {
                reveal(Seq::filter);
            }
            assert(Seq::<Seq<char>>::empty().push(empty) =~= seq![empty]);
        }
        assert(seq![name].filter(keep) =~= seq![name]) by {
            lemma_filter_push(Seq::<Seq<char>>::empty(), keep, name);
            assert(Seq::<Seq<char>>::empty().filter(keep) =~= Seq::<Seq<char>>::empty()) by {
                reveal(Seq::filter);
            }
            assert(Seq::<Seq<char>>::empty().push(name) =~= seq![name]);
        }
        assert(spec_components(base) =~= Seq::<Seq<char>>::empty());
        assert(spec_components(name) =~= seq![name]);
    } else if base.last() == '/' {
        let r = base + name;
        lemma_split_extend(base, name, '/');
        let t = spec_split(base.drop_last(), '/');
        assert(base.drop_last().push('/') =~= base);
        assert(s == t.push(empty));
        lemma_split_nonempty(base.drop_last(), '/');
        let segs = spec_split(r, '/');
        assert(segs =~= t.push(name));
        assert(segs[0] == s[0]);
        assert(r[0] == base[0]);
        lemma_filter_push(t, keep, empty);
        lemma_filter_push(t, keep, name);
    } else {
        let b = base.push('/');
        let r = b + name;
        lemma_split_extend(b, name, '/');
        assert(spec_split(b, '/') == s.push(empty)) by {
            assert(b.drop_last() =~= base);
        }
        let segs = spec_split(r, '/');
        assert(segs =~= s.push(name));
        assert(segs[0] == s[0]);
        assert(r[0] == base[0]);
        lemma_filter_push(s, keep, name);
    }
}

/// Appending simple names to a path adds them, in order, as its last components.
pub proof fn lemma_components_push_names(base: Seq<char>, names: Seq<String>)
    requires
        forall|i: int| 0 <= i < names.len() ==> is_simple_name(#[trigger] names[i]@),
    ensures
        spec_components(spec_push_names(base, names)) == spec_components(base) + names.map_values(
            |n: String| n@,
        ),
    decreases names.len(),
{
    if names.len() > 0 {
        let init = names.drop_last();
        assert forall|i: int| 0 <= i < init.len() implies is_simple_name(#[trigger] init[i]@) by {
            assert(init[i] == names[i]);
        }
        lemma_components_push_names(base, init);
        assert(is_simple_name(names[names.len() - 1]@));
        lemma_components_push(spec_push_names(base, init), names.last()@);
        assert(names.map_values(|n: String| n@) =~= init.map_values(|n: String| n@).push(
            names.last()@,
        ));
    } else {
        assert(names.map_values(|n: String| n@) =~= Seq::<Seq<char>>::empty());
    }
}


pub fn path_push(base: &Vec<char>, name: &str) -> (r: Vec<char>)
    ensures
        r@ == spec_path_push(base@, name@),
{
    let n = chars_of(name);
    if n.len() > 0 && n[0] == '/' {
        return n;
    }
    if base.len() == 0 {
        return n;
    }
    let mut r = base.clone();
    if base[base.len() - 1] != '/' {
        r.push('/');
    }
    append(&mut r, &n);
    r
}

/// One entry found at or under a copied path, in the order of the walk: the path itself
/// first, then what a folder holds, the children of each folder in path order.
#[derive(Clone, Debug)]
pub struct ScannedEntry {
    /// The names that lead from the copied path to the entry (none for the path itself).
    pub names: Vec<String>,
    pub kind: TransferEntryKind,
    pub size: u64,
    pub modified_at: Option<i64>,
    pub source_path: String,
}

/// A copied path as the file system showed it.
#[derive(Clone, Debug)]
pub struct ScannedPath {
    pub path: String,
    /// The path is a link or of a kind that is not relayed; it is left out.
    pub skipped: bool,
    /// What was found at and under the path (nothing for a path that is neither a file nor
    /// a folder).
    pub entries: Vec<ScannedEntry>,
    /// How many links or unsupported entries were left out under the path.
    pub skipped_below: u32,
}

/// An entry of a transfer and, for a file, where its contents are read from.
#[derive(Clone, Debug)]
pub struct PreparedTransferEntry {
    pub entry: TransferEntry,
    pub source_path: Option<String>,
}

impl PreparedTransferEntry {
    pub fn copy(&self) -> (r: PreparedTransferEntry)
        ensures
            r@ == self@,
    {
        PreparedTransferEntry { entry: self.entry.copy(), source_path: copy_opt_string(&self.source_path) }
    }
}

pub struct PreparedEntryView {
    pub relative_path: Seq<char>,
    pub kind: TransferEntryKind,
    pub size: u64,
    pub modified_at: Option<i64>,
    pub source_path: Option<Seq<char>>,
}

impl View for PreparedTransferEntry {
    type V = PreparedEntryView;

    open spec fn view(&self) -> PreparedEntryView {
        PreparedEntryView {
            relative_path: self.entry.relative_path@,
            kind: self.entry.entry_kind,
            size: self.entry.size,
            modified_at: self.entry.modified_at,
            source_path: opt_string_view(self.source_path),
        }
    }
}

/// What a transfer sends: its entries, their total size, the names at its top level, the
/// name it is shown under and a warning about what was left out.
#[derive(Clone, Debug)]
pub struct PreparedTransfer {
    pub entries: Vec<PreparedTransferEntry>,
    pub total_bytes: u64,
    pub top_level_names: Vec<String>,
    pub display_name: String,
    pub warning_message: Option<String>,
}

/// The transfer entry for a scanned entry under a top-level name: its path below the
/// transfer's root, written with `/`; a folder counts no bytes and has no source.
pub open spec fn spec_prepared_entry(top: Seq<char>, e: ScannedEntry) -> PreparedEntryView {
    PreparedEntryView {
        relative_path: spec_normalize_relative_path(spec_push_names(top, e.names@)),
        kind: e.kind,
        size: if e.kind == TransferEntryKind::File {
            e.size
        } else {
            0
        },
        modified_at: e.modified_at,
        source_path: if e.kind == TransferEntryKind::File {
            Some(e.source_path@)
        } else {
            None
        },
    }
}

/// The bytes of the files among scanned entries.
pub open spec fn file_bytes(es: Seq<ScannedEntry>) -> int
    decreases es.len(),
{
    if es.len() == 0 {
        0
    } else {
        file_bytes(es.drop_last()) + if es.last().kind == TransferEntryKind::File {
            es.last().size as int
        } else {
            0
        }
    }
}

proof fn lemma_file_bytes_prefix(es: Seq<ScannedEntry>, i: int)
    requires
        0 <= i <= es.len(),
    ensures
        0 <= file_bytes(es.take(i)) <= file_bytes(es),
    decreases es.len(),
{
    if i < es.len() {
        assert(es.drop_last().take(i) =~= es.take(i));
        lemma_file_bytes_prefix(es.drop_last(), i);
    } else {
        assert(es.take(i) =~= es);
        lemma_file_bytes_nonneg(es);
    }
}

proof fn lemma_file_bytes_nonneg(es: Seq<ScannedEntry>)
    ensures
        file_bytes(es) >= 0,
    decreases es.len(),
{
    if es.len() > 0 {
        lemma_file_bytes_nonneg(es.drop_last());
    }
}

/// What preparing a transfer has gathered after some of the copied paths.
pub struct PreparedSoFar {
    pub entries: Seq<PreparedEntryView>,
    pub total_bytes: int,
    pub top_level_names: Seq<Seq<char>>,
    pub raw_names: Seq<Seq<char>>,
    pub skipped: int,
}

/// Preparing a transfer path by path: a skipped path counts as skipped; any other gets a
/// top-level name made unique among the names before it, and contributes its entries under
/// that name, its files' bytes and what was skipped under it.
pub open spec fn spec_prepared_so_far(items: Seq<ScannedPath>) -> PreparedSoFar
    decreases items.len(),
{
    if items.len() == 0 {
        PreparedSoFar {
            entries: Seq::empty(),
            total_bytes: 0,
            top_level_names: Seq::empty(),
            raw_names: Seq::empty(),
            skipped: 0,
        }
    } else {
        let acc = spec_prepared_so_far(items.drop_last());
        let item = items.last();
        if item.skipped {
            PreparedSoFar { skipped: acc.skipped + 1, ..acc }
        } else {
            let raw = spec_display_name_for_path(item.path@);
            let raw_names = acc.raw_names.push(raw);
            let top = spec_deduped_name(raw, occurrences(raw_names, raw));
            PreparedSoFar {
                entries: acc.entries + item.entries@.map_values(
                    |e: ScannedEntry| spec_prepared_entry(top, e),
                ),
                total_bytes: acc.total_bytes + file_bytes(item.entries@),
                top_level_names: acc.top_level_names.push(top),
                raw_names,
                skipped: acc.skipped + item.skipped_below,
            }
        }
    }
}

/// How many of the copied paths are laid out (not skipped).
pub open spec fn laid_out_paths(items: Seq<ScannedPath>) -> nat
    decreases items.len(),
{
    if items.len() == 0 {
        0
    } else {
        laid_out_paths(items.drop_last()) + if items.last().skipped {
            0nat
        } else {
            1nat
        }
    }
}

/// How many of the copied paths that are laid out are shown under the name `d`.
pub open spec fn paths_shown_as(items: Seq<ScannedPath>, d: Seq<char>) -> nat
    decreases items.len(),
{
    if items.len() == 0 {
        0
    } else {
        paths_shown_as(items.drop_last(), d) + if !items.last().skipped
            && spec_display_name_for_path(items.last().path@) == d {
            1nat
        } else {
            0nat
        }
    }
}

proof fn lemma_occurrences_push(names: Seq<Seq<char>>, x: Seq<char>, d: Seq<char>)
    ensures
        occurrences(names.push(x), d) == occurrences(names, d) + if x == d {
            1nat
        } else {
            0nat
        },
{
    lemma_filter_push(names, equals_name(d), x);
}

proof fn lemma_prepared_counts(items: Seq<ScannedPath>)
    ensures
        spec_prepared_so_far(items).raw_names.len() == laid_out_paths(items),
        spec_prepared_so_far(items).top_level_names.len() == laid_out_paths(items),
        forall|d: Seq<char>|
            #[trigger] occurrences(spec_prepared_so_far(items).raw_names, d) == paths_shown_as(
                items,
                d,
            ),
    decreases items.len(),
{
    if items.len() == 0 {
        assert forall|d: Seq<char>|
            #[trigger] occurrences(spec_prepared_so_far(items).raw_names, d) == paths_shown_as(
                items,
                d,
            ) by {
            reveal(Seq::filter);
        }
    } else {
        let init = items.drop_last();
        lemma_prepared_counts(init);
        let acc = spec_prepared_so_far(init);
        let item = items.last();
        if !item.skipped {
            let raw = spec_display_name_for_path(item.path@);
            assert forall|d: Seq<char>|
                #[trigger] occurrences(spec_prepared_so_far(items).raw_names, d) == paths_shown_as(
                    items,
                    d,
                ) by {
                lemma_occurrences_push(acc.raw_names, raw, d);
                assert(occurrences(acc.raw_names, d) == paths_shown_as(init, d));
            }
        } else {
            assert forall|d: Seq<char>|
                #[trigger] occurrences(spec_prepared_so_far(items).raw_names, d) == paths_shown_as(
                    items,
                    d,
                ) by {
                assert(occurrences(acc.raw_names, d) == paths_shown_as(init, d));
            }
        }
    }
}

/// Each copied path that is laid out gets a top-level name in the order of the paths: its
/// display name when it is the first path shown under that name, and the n-th path shown
/// under the same name gets that name numbered `n`. So two paths shown under one name never
/// share a number, and the receiver gets each of them at its own place.
pub proof fn top_level_names_number_equal_names(items: Seq<ScannedPath>)
    ensures
        spec_prepared_so_far(items).top_level_names.len() == laid_out_paths(items),
        forall|i: int|
            0 <= i < items.len() && !(#[trigger] items[i]).skipped ==> {
                let name = spec_display_name_for_path(items[i].path@);
                &&& laid_out_paths(items.take(i)) < laid_out_paths(items)
                &&& spec_prepared_so_far(items).top_level_names[laid_out_paths(items.take(i)) as int]
                    == spec_deduped_name(name, paths_shown_as(items.take(i + 1), name))
            },
    decreases items.len(),
{
    lemma_prepared_counts(items);
    if items.len() > 0 {
        let init = items.drop_last();
        top_level_names_number_equal_names(init);
        lemma_prepared_counts(init);
        let acc = spec_prepared_so_far(init);
        let n = items.len() - 1;
        assert(items.take(n) =~= init);
        assert(items.take(n + 1) =~= items);
        assert forall|i: int|
            0 <= i < items.len() && !(#[trigger] items[i]).skipped implies {
                let name = spec_display_name_for_path(items[i].path@);
                &&& laid_out_paths(items.take(i)) < laid_out_paths(items)
                &&& spec_prepared_so_far(items).top_level_names[laid_out_paths(items.take(i)) as int]
                    == spec_deduped_name(name, paths_shown_as(items.take(i + 1), name))
            } by {
            let name = spec_display_name_for_path(items[i].path@);
            if i < n {
                assert(init[i] == items[i]);
                assert(items.take(i) =~= init.take(i));
                assert(items.take(i + 1) =~= init.take(i + 1));
                assert(laid_out_paths(items.take(i)) < laid_out_paths(init));
                if !items.last().skipped {
                    let raw = spec_display_name_for_path(items.last().path@);
                    let top = spec_deduped_name(raw, occurrences(acc.raw_names.push(raw), raw));
                    assert(spec_prepared_so_far(items).top_level_names == acc.top_level_names.push(top));
                }
            } else {
                assert(i == n);
                let raw = spec_display_name_for_path(items.last().path@);
                assert(raw == name);
                lemma_occurrences_push(acc.raw_names, raw, raw);
                assert(occurrences(acc.raw_names, raw) == paths_shown_as(init, raw));
                let top = spec_deduped_name(raw, occurrences(acc.raw_names.push(raw), raw));
                assert(spec_prepared_so_far(items).top_level_names == acc.top_level_names.push(top));
                assert(spec_prepared_so_far(items).top_level_names[acc.top_level_names.len() as int] == top);
            }
        }
    }
}

/// A path that is one of the top-level names, as components, followed by further names,
/// joined by `/`.
pub open spec fn lies_under_top_level_name(tops: Seq<Seq<char>>, path: Seq<char>) -> bool {
    exists|t: Seq<char>, names: Seq<Seq<char>>|
        #![trigger tops.contains(t), spec_join(spec_components(t) + names, '/')]
        tops.contains(t) && path == spec_join(spec_components(t) + names, '/')
}

proof fn lemma_lies_under_more(tops: Seq<Seq<char>>, top: Seq<char>, path: Seq<char>)
    requires
        lies_under_top_level_name(tops, path),
    ensures
        lies_under_top_level_name(tops.push(top), path),
{
    let (t, names) = choose|t: Seq<char>, names: Seq<Seq<char>>|
        #![trigger tops.contains(t), spec_join(spec_components(t) + names, '/')]
        tops.contains(t) && path == spec_join(spec_components(t) + names, '/');
    let m = choose|m: int| 0 <= m < tops.len() && tops[m] == t;
    assert(tops.push(top)[m] == t);
    assert(tops.push(top).contains(t));
}

/// Every entry of a prepared transfer lies under one of its top-level names: its relative
/// path is that name's components followed by the names that lead to the entry, joined by
/// `/`. This holds when every entry was reached through names a folder listing gives.
pub proof fn prepared_paths_lie_under_top_level_names(items: Seq<ScannedPath>)
    requires
        forall|i: int, j: int, k: int|
            0 <= i < items.len() && 0 <= j < items[i].entries@.len() && 0 <= k
                < items[i].entries@[j].names@.len() ==> is_simple_name(
                #[trigger] items[i].entries@[j].names@[k]@,
            ),
    ensures
        forall|k: int|
            0 <= k < spec_prepared_so_far(items).entries.len() ==> lies_under_top_level_name(
                spec_prepared_so_far(items).top_level_names,
                #[trigger] spec_prepared_so_far(items).entries[k].relative_path,
            ),
    decreases items.len(),
{
    if items.len() > 0 {
        let init = items.drop_last();
        assert forall|i: int, j: int, k: int|
            0 <= i < init.len() && 0 <= j < init[i].entries@.len() && 0 <= k
                < init[i].entries@[j].names@.len() implies is_simple_name(
            #[trigger] init[i].entries@[j].names@[k]@,
        ) by {
            assert(init[i] == items[i]);
        }
        prepared_paths_lie_under_top_level_names(init);
        let acc = spec_prepared_so_far(init);
        let item = items.last();
        let prepared = spec_prepared_so_far(items);
        if !item.skipped {
            let raw = spec_display_name_for_path(item.path@);
            let raw_names = acc.raw_names.push(raw);
            let top = spec_deduped_name(raw, occurrences(raw_names, raw));
            let added = item.entries@.map_values(|e: ScannedEntry| spec_prepared_entry(top, e));
            assert(prepared.entries == acc.entries + added);
            assert(prepared.top_level_names == acc.top_level_names.push(top));
            assert forall|k: int| 0 <= k < prepared.entries.len() implies lies_under_top_level_name(
                prepared.top_level_names,
                #[trigger] prepared.entries[k].relative_path,
            ) by {
                if k < acc.entries.len() {
                    assert(prepared.entries[k] == acc.entries[k]);
                    lemma_lies_under_more(acc.top_level_names, top, acc.entries[k].relative_path);
                } else {
                    let j = k - acc.entries.len();
                    let e = item.entries@[j];
                    assert(prepared.entries[k] == spec_prepared_entry(top, e));
                    assert forall|n: int| 0 <= n < e.names@.len() implies is_simple_name(
                        #[trigger] e.names@[n]@,
                    ) by {
                        assert(items[items.len() - 1].entries@[j].names@[n] == e.names@[n]);
                    }
                    lemma_components_push_names(top, e.names@);
                    let names = e.names@.map_values(|n: String| n@);
                    assert(prepared.top_level_names[acc.top_level_names.len() as int] == top);
                    assert(prepared.top_level_names.contains(top));
                    assert(prepared.entries[k].relative_path == spec_join(spec_components(top) + names, '/'));
                }
            }
        } else {
            assert(prepared.entries == acc.entries);
            assert(prepared.top_level_names == acc.top_level_names);
        }
    }
}

proof fn lemma_prepared_prefix(items: Seq<ScannedPath>, i: int)
    requires
        0 <= i <= items.len(),
    ensures
        0 <= spec_prepared_so_far(items.take(i)).total_bytes <= spec_prepared_so_far(items).total_bytes,
        0 <= spec_prepared_so_far(items.take(i)).skipped <= spec_prepared_so_far(items).skipped,
    decreases items.len(),
{
    if i < items.len() {
        assert(items.drop_last().take(i) =~= items.take(i));
        lemma_prepared_prefix(items.drop_last(), i);
        lemma_file_bytes_nonneg(items.last().entries@);
    } else {
        assert(items.take(i) =~= items);
        if items.len() > 0 {
            lemma_prepared_prefix(items.drop_last(), items.len() - 1);
            assert(items.drop_last().take(items.len() - 1) =~= items.drop_last());
            lemma_file_bytes_nonneg(items.last().entries@);
        }
    }
}

/// The bytes of prepared entries.
pub open spec fn entry_bytes(es: Seq<PreparedEntryView>) -> int
    decreases es.len(),
{
    if es.len() == 0 {
        0
    } else {
        entry_bytes(es.drop_last()) + es.last().size
    }
}

proof fn lemma_entry_bytes_concat(a: Seq<PreparedEntryView>, b: Seq<PreparedEntryView>)
    ensures
        entry_bytes(a + b) == entry_bytes(a) + entry_bytes(b),
    decreases b.len(),
{
    if b.len() == 0 {
        assert(a + b =~= a);
    } else {
        lemma_entry_bytes_concat(a, b.drop_last());
        assert((a + b).drop_last() =~= a + b.drop_last());
    }
}

proof fn lemma_mapped_entry_bytes(top: Seq<char>, es: Seq<ScannedEntry>)
    ensures
        entry_bytes(es.map_values(|e: ScannedEntry| spec_prepared_entry(top, e))) == file_bytes(es),
    decreases es.len(),
{
    if es.len() > 0 {
        lemma_mapped_entry_bytes(top, es.drop_last());
        assert(es.map_values(|e: ScannedEntry| spec_prepared_entry(top, e)).drop_last()
            =~= es.drop_last().map_values(|e: ScannedEntry| spec_prepared_entry(top, e)));
    }
}

/// A transfer's size is the sum of its entries' sizes: what its files hold, folders
/// counting nothing.
pub proof fn transfer_size_is_the_sum_of_its_entries(items: Seq<ScannedPath>)
    ensures
        spec_prepared_so_far(items).total_bytes == entry_bytes(spec_prepared_so_far(items).entries),
    decreases items.len(),
{
    if items.len() > 0 {
        transfer_size_is_the_sum_of_its_entries(items.drop_last());
        let acc = spec_prepared_so_far(items.drop_last());
        let item = items.last();
        if !item.skipped {
            let raw = spec_display_name_for_path(item.path@);
            let top = spec_deduped_name(raw, occurrences(acc.raw_names.push(raw), raw));
            let mapped = item.entries@.map_values(|e: ScannedEntry| spec_prepared_entry(top, e));
            lemma_entry_bytes_concat(acc.entries, mapped);
            lemma_mapped_entry_bytes(top, item.entries@);
        }
    }
}

/// `n items`.
pub open spec fn spec_items_label(n: nat) -> Seq<char> {
    spec_decimal(n) + seq![' ', 'i', 't', 'e', 'm', 's']
}

fn items_label(n: u64) -> (r: String)
    ensures
        r@ == spec_items_label(n as nat),
{
    let mut chars = chars_of(decimal(n).as_str());
    let suffix = chars_of(" items");
    proof {
        reveal_strlit(" items");
    }
    append(&mut chars, &suffix);
    string_from_chars(&chars)
}

/// `n item(s) were skipped because they are links or unsupported`.
pub open spec fn spec_skipped_warning(n: nat) -> Seq<char> {
    spec_decimal(n) + " item(s) were skipped because they are links or unsupported"@
}

fn skipped_warning(n: u32) -> (r: String)
    ensures
        r@ == spec_skipped_warning(n as nat),
{
    let mut chars = chars_of(decimal(n as u64).as_str());
    let suffix = chars_of(" item(s) were skipped because they are links or unsupported");
    append(&mut chars, &suffix);
    string_from_chars(&chars)
}

/// The name a transfer is shown under: its one top-level name, or how many it has.
pub open spec fn spec_transfer_display_name(tops: Seq<Seq<char>>) -> Seq<char> {
    if tops.len() == 1 {
        tops[0]
    } else {
        spec_items_label(tops.len())
    }
}

/// The warning about what was left out, if anything was.
pub open spec fn spec_transfer_warning(skipped: int) -> Option<Seq<char>> {
    if skipped > 0 {
        Some(spec_skipped_warning(skipped as nat))
    } else {
        None
    }
}

/// Lays out a transfer of copied paths from what the file system showed of them. Refused
/// when no path was copied or nothing transferable was found.
pub fn prepare_transfer(items: &Vec<ScannedPath>) -> (r: Result<PreparedTransfer, RelayError>)
    requires
        spec_prepared_so_far(items@).total_bytes <= u64::MAX,
        spec_prepared_so_far(items@).skipped <= u32::MAX,
    ensures
        items@.len() == 0 ==> r == Err::<PreparedTransfer, RelayError>(RelayError::NoFilesToTransfer),
        items@.len() > 0 && spec_prepared_so_far(items@).entries.len() == 0 ==> r == Err::<
            PreparedTransfer,
            RelayError,
        >(RelayError::NoTransferableFiles),
        r is Ok <==> items@.len() > 0 && spec_prepared_so_far(items@).entries.len() > 0,
        r matches Ok(p) ==> {
            let acc = spec_prepared_so_far(items@);
            &&& p.entries@.map_values(|e: PreparedTransferEntry| e@) == acc.entries
            &&& p.total_bytes == acc.total_bytes
            &&& strings_view(p.top_level_names@) == acc.top_level_names
            &&& p.display_name@ == spec_transfer_display_name(acc.top_level_names)
            &&& opt_string_view(p.warning_message) == spec_transfer_warning(acc.skipped)
        },
{
    if items.len() == 0 {
        return Err(RelayError::NoFilesToTransfer);
    }
    let mut entries: Vec<PreparedTransferEntry> = Vec::new();
    let mut total_bytes: u64 = 0;
    let mut top_level_names: Vec<String> = Vec::new();
    let mut raw_names: Vec<String> = Vec::new();
    let mut skipped: u32 = 0;
    let mut i: usize = 0;
    proof {
        assert(items@.take(0) =~= Seq::<ScannedPath>::empty());
    }
    while i < items.len()
        invariant
            i <= items@.len(),
            spec_prepared_so_far(items@).total_bytes <= u64::MAX,
            spec_prepared_so_far(items@).skipped <= u32::MAX,
            ({
                let acc = spec_prepared_so_far(items@.take(i as int));
                &&& entries@.map_values(|e: PreparedTransferEntry| e@) == acc.entries
                &&& total_bytes == acc.total_bytes
                &&& strings_view(top_level_names@) == acc.top_level_names
                &&& strings_view(raw_names@) == acc.raw_names
                &&& skipped == acc.skipped
            }),
        decreases items.len() - i,
    {
        let ghost acc = spec_prepared_so_far(items@.take(i as int));
        proof {
            assert(items@.take(i + 1).drop_last() =~= items@.take(i as int));
            lemma_prepared_prefix(items@, i + 1);
        }
        let item = &items[i];
        if item.skipped {
            skipped = skipped + 1;
        } else {
            let raw = display_name_for_path(item.path.as_str());
            let ghost raw_view = raw@;
            let top = dedupe_top_level_name(raw, &mut raw_names);
            proof {
                assert(strings_view(raw_names@) =~= acc.raw_names.push(raw_view));
            }
            let top_chars = chars_of(top.as_str());
            let ghost mapped = item.entries@.map_values(|e: ScannedEntry| spec_prepared_entry(top@, e));
            let ghost start = entries@.map_values(|e: PreparedTransferEntry| e@);
            let mut k: usize = 0;
            let ghost base_total = total_bytes as int;
            proof {
                assert(item.entries@.take(0) =~= Seq::<ScannedEntry>::empty());
            }
            while k < item.entries.len()
                invariant
                    k <= item.entries@.len(),
                    top_chars@ == top@,
                    mapped == item.entries@.map_values(|e: ScannedEntry| spec_prepared_entry(top@, e)),
                    entries@.map_values(|e: PreparedTransferEntry| e@) == start + mapped.take(k as int),
                    total_bytes == base_total + file_bytes(item.entries@.take(k as int)),
                    base_total + file_bytes(item.entries@) <= u64::MAX,
                decreases item.entries.len() - k,
            {
                proof {
                    assert(item.entries@.take(k + 1).drop_last() =~= item.entries@.take(k as int));
                    lemma_file_bytes_prefix(item.entries@, k + 1);
                    lemma_file_bytes_nonneg(item.entries@.take(k as int));
                }
                let e = &item.entries[k];
                let mut path = top_chars.clone();
                let mut n: usize = 0;
                assert(e.names@.take(0) =~= Seq::<String>::empty());
                while n < e.names.len()
                    invariant
                        n <= e.names@.len(),
                        path@ == spec_push_names(top_chars@, e.names@.take(n as int)),
                    decreases e.names.len() - n,
                {
                    assert(e.names@.take(n + 1).drop_last() =~= e.names@.take(n as int));
                    path = path_push(&path, e.names[n].as_str());
                    n = n + 1;
                }
                assert(e.names@.take(e.names@.len() as int) =~= e.names@);
                let joined = string_from_chars(&path);
                let relative_path = normalize_relative_path(joined.as_str());
                let is_file = e.kind == TransferEntryKind::File;
                let prepared = PreparedTransferEntry {
                    entry: TransferEntry {
                        relative_path,
                        entry_kind: e.kind,
                        size: if is_file {
                            e.size
                        } else {
                            0
                        },
                        modified_at: e.modified_at,
                    },
                    source_path: if is_file {
                        Some(e.source_path.clone())
                    } else {
                        None
                    },
                };
                if is_file {
                    total_bytes = total_bytes + e.size;
                }
                let ghost before = entries@;
                let ghost pv = prepared@;
                assert(pv == mapped[k as int]);
                entries.push(prepared);
                proof {
                    assert(entries@.map_values(|e: PreparedTransferEntry| e@) =~= before.map_values(|e: PreparedTransferEntry| e@).push(pv));
                    assert(mapped.take(k + 1) =~= mapped.take(k as int).push(mapped[k as int]));
                    assert(entries@.map_values(|e: PreparedTransferEntry| e@) =~= start + mapped.take(k + 1));
                }
                k = k + 1;
            }
            proof {
                assert(item.entries@.take(item.entries@.len() as int) =~= item.entries@);
                assert(mapped.take(mapped.len() as int) =~= mapped);
            }
            top_level_names.push(top);
            skipped = skipped + item.skipped_below;
            proof {
                assert(strings_view(top_level_names@) =~= acc.top_level_names.push(top@));
            }
        }
        i = i + 1;
    }
    proof {
        assert(items@.take(items@.len() as int) =~= items@);
    }
    if entries.len() == 0 {
        return Err(RelayError::NoTransferableFiles);
    }
    let display_name = if top_level_names.len() == 1 {
        top_level_names[0].clone()
    } else {
        items_label(top_level_names.len() as u64)
    };
    let warning_message = if skipped > 0 {
        Some(skipped_warning(skipped))
    } else {
        None
    };
    Ok(PreparedTransfer { entries, total_bytes, top_level_names, display_name, warning_message })
}

impl PreparedTransfer {
    /// How many entries the transfer has.
    pub fn total_entries(&self) -> (n: u32)
        requires
            self.entries@.len() <= u32::MAX,
        ensures
            n == self.entries@.len(),
    {
        self.entries.len() as u32
    }

    /// The file entries of the transfer, in order.
    pub fn file_entries(&self) -> (r: Vec<PreparedTransferEntry>)
        ensures
            r@.map_values(|e: PreparedTransferEntry| e@) == self.entries@.map_values(
                |e: PreparedTransferEntry| e@,
            ).filter(|e: PreparedEntryView| e.kind == TransferEntryKind::File),
    {
        let ghost views = self.entries@.map_values(|e: PreparedTransferEntry| e@);
        let mut r: Vec<PreparedTransferEntry> = Vec::new();
        let mut i: usize = 0;
        assert(views.take(0).filter(|e: PreparedEntryView| e.kind == TransferEntryKind::File) =~= Seq::<PreparedEntryView>::empty());
        while i < self.entries.len()
            invariant
                i <= self.entries@.len(),
                views == self.entries@.map_values(|e: PreparedTransferEntry| e@),
                r@.map_values(|e: PreparedTransferEntry| e@) == views.take(i as int).filter(
                    |e: PreparedEntryView| e.kind == TransferEntryKind::File,
                ),
            decreases self.entries.len() - i,
        {
            proof {
                assert(views.take(i + 1) =~= views.take(i as int).push(views[i as int]));
                crate::seqs::lemma_filter_push(views.take(i as int), |e: PreparedEntryView| e.kind == TransferEntryKind::File, views[i as int]);
            }
            if self.entries[i].entry.entry_kind == TransferEntryKind::File {
                let e = self.entries[i].copy();
                r.push(e);
                assert(r@.map_values(|e: PreparedTransferEntry| e@) =~= views.take(i as int).filter(|e: PreparedEntryView| e.kind == TransferEntryKind::File).push(views[i as int]));
            }
            i = i + 1;
        }
        assert(views.take(views.len() as int) =~= views);
        r
    }
}


/// The order of a component's kind: the root, then `.`, then `..`, then names.
pub open spec fn component_rank(c: Seq<char>) -> int {
    if c == seq!['/'] {
        0
    } else if c == seq!['.'] {
        1
    } else if c == seq!['.', '.'] {
        2
    } else {
        3
    }
}

/// Text in the order of its characters' code points, a prefix first; for UTF-8 this is the
/// order of the bytes.
pub open spec fn chars_lt(a: Seq<char>, b: Seq<char>) -> bool
    decreases a.len(),
{
    if b.len() == 0 {
        false
    } else if a.len() == 0 {
        true
    } else if a[0] != b[0] {
        (a[0] as u32) < (b[0] as u32)
    } else {
        chars_lt(a.skip(1), b.skip(1))
    }
}

/// No text comes before another that comes before it.
pub proof fn lemma_chars_lt_asymmetric(a: Seq<char>, b: Seq<char>)
    ensures
        chars_lt(a, b) ==> !chars_lt(b, a),
    decreases a.len(),
{
    if a.len() > 0 && b.len() > 0 && a[0] == b[0] {
        lemma_chars_lt_asymmetric(a.skip(1), b.skip(1));
    }
}

/// Components ordered by kind, names by their text.
pub open spec fn component_lt(a: Seq<char>, b: Seq<char>) -> bool {
    component_rank(a) < component_rank(b) || (component_rank(a) == component_rank(b) && chars_lt(
        a,
        b,
    ))
}

/// Component lists in lexicographic order.
pub open spec fn components_lt(a: Seq<Seq<char>>, b: Seq<Seq<char>>) -> bool
    decreases a.len(),
{
    if b.len() == 0 {
        false
    } else if a.len() == 0 {
        true
    } else if a[0] != b[0] {
        component_lt(a[0], b[0])
    } else {
        components_lt(a.skip(1), b.skip(1))
    }
}

/// Paths in the platform's path order: component by component.
pub open spec fn path_lt(a: Seq<char>, b: Seq<char>) -> bool {
    components_lt(spec_components(a), spec_components(b))
}

/// Text that comes before text that comes before a third comes before the third.
pub proof fn lemma_chars_lt_transitive(a: Seq<char>, b: Seq<char>, c: Seq<char>)
    ensures
        chars_lt(a, b) && chars_lt(b, c) ==> chars_lt(a, c),
    decreases a.len(),
{
    if a.len() > 0 && b.len() > 0 && c.len() > 0 && a[0] == b[0] && b[0] == c[0] {
        lemma_chars_lt_transitive(a.skip(1), b.skip(1), c.skip(1));
    }
}

/// No component comes before another that comes before it.
pub proof fn lemma_component_lt_asymmetric(a: Seq<char>, b: Seq<char>)
    ensures
        component_lt(a, b) ==> !component_lt(b, a),
{
    lemma_chars_lt_asymmetric(a, b);
}

/// The component order is transitive.
pub proof fn lemma_component_lt_transitive(a: Seq<char>, b: Seq<char>, c: Seq<char>)
    ensures
        component_lt(a, b) && component_lt(b, c) ==> component_lt(a, c),
{
    lemma_chars_lt_transitive(a, b, c);
}

/// No component list comes before another that comes before it.
pub proof fn lemma_components_lt_asymmetric(a: Seq<Seq<char>>, b: Seq<Seq<char>>)
    ensures
        components_lt(a, b) ==> !components_lt(b, a),
    decreases a.len(),
{
    if a.len() > 0 && b.len() > 0 {
        if a[0] == b[0] {
            lemma_components_lt_asymmetric(a.skip(1), b.skip(1));
        } else {
            lemma_component_lt_asymmetric(a[0], b[0]);
        }
    }
}

/// The component-list order is transitive.
pub proof fn lemma_components_lt_transitive(a: Seq<Seq<char>>, b: Seq<Seq<char>>, c: Seq<Seq<char>>)
    ensures
        components_lt(a, b) && components_lt(b, c) ==> components_lt(a, c),
    decreases a.len(),
{
    if a.len() > 0 && b.len() > 0 && c.len() > 0 {
        if a[0] == b[0] && b[0] == c[0] {
            lemma_components_lt_transitive(a.skip(1), b.skip(1), c.skip(1));
        } else {
            lemma_component_lt_transitive(a[0], b[0], c[0]);
            lemma_component_lt_asymmetric(a[0], b[0]);
        }
    }
}

/// Of two different texts, one comes before the other.
pub proof fn lemma_chars_lt_total(a: Seq<char>, b: Seq<char>)
    ensures
        a != b ==> chars_lt(a, b) || chars_lt(b, a),
    decreases a.len(),
{
    if a.len() > 0 && b.len() > 0 && a[0] == b[0] {
        lemma_chars_lt_total(a.skip(1), b.skip(1));
        if a.skip(1) == b.skip(1) {
            assert(a =~= seq![a[0]] + a.skip(1));
            assert(b =~= seq![b[0]] + b.skip(1));
        }
    } else if a.len() == 0 && b.len() == 0 {
        assert(a =~= b);
    } else if a.len() > 0 && b.len() > 0 {
        assert(a[0] != b[0]);
        if (a[0] as u32) == (b[0] as u32) {
            vstd::utf8::char_u32_cast(a[0], a[0] as u32);
            vstd::utf8::char_u32_cast(b[0], b[0] as u32);
        }
    }
}

/// Of two different components, one comes before the other.
pub proof fn lemma_component_lt_total(a: Seq<char>, b: Seq<char>)
    ensures
        a != b ==> component_lt(a, b) || component_lt(b, a),
{
    lemma_chars_lt_total(a, b);
}

/// Of two different component lists, one comes before the other.
pub proof fn lemma_components_lt_total(a: Seq<Seq<char>>, b: Seq<Seq<char>>)
    ensures
        a != b ==> components_lt(a, b) || components_lt(b, a),
    decreases a.len(),
{
    if a.len() > 0 && b.len() > 0 {
        if a[0] == b[0] {
            lemma_components_lt_total(a.skip(1), b.skip(1));
            if a.skip(1) == b.skip(1) {
                assert(a =~= seq![a[0]] + a.skip(1));
                assert(b =~= seq![b[0]] + b.skip(1));
            }
        } else {
            lemma_component_lt_total(a[0], b[0]);
        }
    } else if a.len() == 0 && b.len() == 0 {
        assert(a =~= b);
    }
}

pub fn chars_less(a: &Vec<char>, b: &Vec<char>) -> (r: bool)
    ensures
        r == chars_lt(a@, b@),
{
    let mut i: usize = 0;
    assert(a@.skip(0) =~= a@);
    assert(b@.skip(0) =~= b@);
    while i < a.len() && i < b.len()
        invariant
            i <= a@.len(),
            i <= b@.len(),
            chars_lt(a@, b@) == chars_lt(a@.skip(i as int), b@.skip(i as int)),
        decreases a.len() - i,
    {
        if a[i] != b[i] {
            return (a[i] as u32) < (b[i] as u32);
        }
        proof {
            assert(a@.skip(i as int).skip(1) =~= a@.skip(i + 1));
            assert(b@.skip(i as int).skip(1) =~= b@.skip(i + 1));
        }
        i = i + 1;
    }
    i < b.len()
}

fn vec_eq(a: &Vec<char>, b: &Vec<char>) -> (r: bool)
    ensures
        r == (a@ == b@),
{
    if a.len() != b.len() {
        return false;
    }
    let mut i: usize = 0;
    while i < a.len()
        invariant
            i <= a@.len(),
            a@.len() == b@.len(),
            forall|j: int| 0 <= j < i ==> a@[j] == b@[j],
        decreases a.len() - i,
    {
        if a[i] != b[i] {
            return false;
        }
        i = i + 1;
    }
    assert(a@ =~= b@);
    true
}

fn rank_of(c: &Vec<char>) -> (r: u8)
    ensures
        r == component_rank(c@),
{
    if is_root(c) {
        0
    } else if is_dot(c) {
        1
    } else if is_dot_dot(c) {
        2
    } else {
        3
    }
}

fn components_less(a: &Vec<Vec<char>>, b: &Vec<Vec<char>>) -> (r: bool)
    ensures
        r == components_lt(a@.map_values(|v: Vec<char>| v@), b@.map_values(|v: Vec<char>| v@)),
{
    let ghost av = a@.map_values(|v: Vec<char>| v@);
    let ghost bv = b@.map_values(|v: Vec<char>| v@);
    let mut i: usize = 0;
    assert(av.skip(0) =~= av);
    assert(bv.skip(0) =~= bv);
    while i < a.len() && i < b.len()
        invariant
            i <= a@.len(),
            i <= b@.len(),
            av == a@.map_values(|v: Vec<char>| v@),
            bv == b@.map_values(|v: Vec<char>| v@),
            components_lt(av, bv) == components_lt(av.skip(i as int), bv.skip(i as int)),
        decreases a.len() - i,
    {
        assert(av.skip(i as int)[0] == a@[i as int]@);
        assert(bv.skip(i as int)[0] == b@[i as int]@);
        if !vec_eq(&a[i], &b[i]) {
            let ra = rank_of(&a[i]);
            let rb = rank_of(&b[i]);
            return ra < rb || (ra == rb && chars_less(&a[i], &b[i]));
        }
        proof {
            assert(av.skip(i as int).skip(1) =~= av.skip(i + 1));
            assert(bv.skip(i as int).skip(1) =~= bv.skip(i + 1));
        }
        i = i + 1;
    }
    i < b.len()
}

/// Whether one path comes before another in the platform's path order.
pub fn path_less(a: &str, b: &str) -> (r: bool)
    ensures
        r == path_lt(a@, b@),
{
    let ca = components_of(a);
    let cb = components_of(b);
    proof {
        assert(ca@.map_values(|v: Vec<char>| v@) =~= spec_components(a@));
        assert(cb@.map_values(|v: Vec<char>| v@) =~= spec_components(b@));
    }
    components_less(&ca, &cb)
}

/// What the file system showed of a copied path: where it resolves to, its size, and when
/// it was last modified (seconds and nanoseconds since the Unix epoch), when known.
#[derive(Clone, Debug)]
pub struct PathStamp {
    pub path: String,
    pub len: u64,
    pub modified: Option<(u64, u32)>,
}

impl PathStamp {
    pub fn copy(&self) -> (r: PathStamp)
        ensures
            r == *self,
    {
        PathStamp { path: self.path.clone(), len: self.len, modified: self.modified }
    }
}

/// Stamps in the order of their paths.
pub open spec fn stamp_lt() -> spec_fn(PathStamp, PathStamp) -> bool {
    |a: PathStamp, b: PathStamp| path_lt(a.path@, b.path@)
}

/// A number as eight big-endian bytes.
pub open spec fn be8(n: u64) -> Seq<u8> {
    seq![
        (n / 0x100000000000000 % 0x100) as u8,
        (n / 0x1000000000000 % 0x100) as u8,
        (n / 0x10000000000 % 0x100) as u8,
        (n / 0x100000000 % 0x100) as u8,
        (n / 0x1000000 % 0x100) as u8,
        (n / 0x10000 % 0x100) as u8,
        (n / 0x100 % 0x100) as u8,
        (n % 0x100) as u8,
    ]
}

/// A number as four big-endian bytes.
pub open spec fn be4(n: u32) -> Seq<u8> {
    seq![
        (n / 0x1000000 % 0x100) as u8,
        (n / 0x10000 % 0x100) as u8,
        (n / 0x100 % 0x100) as u8,
        (n % 0x100) as u8,
    ]
}

/// The bytes a stamp adds to a file list's hash: the path's UTF-8 bytes, the size, then the
/// modification time when known.
pub open spec fn stamp_bytes(st: PathStamp) -> Seq<u8> {
    encode_utf8(st.path@) + be8(st.len) + match st.modified {
        Some((secs, nanos)) => be8(secs) + be4(nanos),
        None => Seq::empty(),
    }
}

/// The bytes of several stamps, in order.
pub open spec fn stamps_bytes(stamps: Seq<PathStamp>) -> Seq<u8>
    decreases stamps.len(),
{
    if stamps.len() == 0 {
        Seq::empty()
    } else {
        stamps_bytes(stamps.drop_last()) + stamp_bytes(stamps.last())
    }
}

/// The hash of a copied file list: the hex SHA-256 digest of `file-list` followed by the
/// stamps in path order.
pub open spec fn spec_file_list_hash(stamps: Seq<PathStamp>) -> Seq<char> {
    spec_sha256_hex(encode_utf8("file-list"@) + stamps_bytes(insertion_sorted(stamps, stamp_lt())))
}

fn push_be8(out: &mut Vec<u8>, n: u64)
    ensures
        final(out)@ == old(out)@ + be8(n),
{
    out.push((n / 0x100000000000000 % 0x100) as u8);
    out.push((n / 0x1000000000000 % 0x100) as u8);
    out.push((n / 0x10000000000 % 0x100) as u8);
    out.push((n / 0x100000000 % 0x100) as u8);
    out.push((n / 0x1000000 % 0x100) as u8);
    out.push((n / 0x10000 % 0x100) as u8);
    out.push((n / 0x100 % 0x100) as u8);
    out.push((n % 0x100) as u8);
    assert(final(out)@ =~= old(out)@ + be8(n));
}

fn push_be4(out: &mut Vec<u8>, n: u32)
    ensures
        final(out)@ == old(out)@ + be4(n),
{
    out.push((n / 0x1000000 % 0x100) as u8);
    out.push((n / 0x10000 % 0x100) as u8);
    out.push((n / 0x100 % 0x100) as u8);
    out.push((n % 0x100) as u8);
    assert(final(out)@ =~= old(out)@ + be4(n));
}

fn push_bytes(out: &mut Vec<u8>, bytes: &[u8])
    ensures
        final(out)@ == old(out)@ + bytes@,
{
    let mut i: usize = 0;
    let ghost start = out@;
    while i < bytes.len()
        invariant
            i <= bytes@.len(),
            out@ == start + bytes@.take(i as int),
        decreases bytes.len() - i,
    {
        proof {
            assert(bytes@.take(i + 1) =~= bytes@.take(i as int).push(bytes@[i as int]));
        }
        out.push(bytes[i]);
        i = i + 1;
    }
    assert(bytes@.take(bytes@.len() as int) =~= bytes@);
}

/// Sorts stamps by path, keeping the order of stamps whose paths compare equal.
pub fn sort_stamps(stamps: &Vec<PathStamp>) -> (r: Vec<PathStamp>)
    ensures
        r@ == insertion_sorted(stamps@, stamp_lt()),
{
    let mut out: Vec<PathStamp> = Vec::new();
    let mut i: usize = 0;
    assert(stamps@.take(0) =~= Seq::<PathStamp>::empty());
    while i < stamps.len()
        invariant
            i <= stamps@.len(),
            out@ == insertion_sorted(stamps@.take(i as int), stamp_lt()),
        decreases stamps.len() - i,
    {
        let x = stamps[i].copy();
        let mut k: usize = 0;
        while k < out.len() && !path_less(x.path.as_str(), out[k].path.as_str())
            invariant
                k <= out@.len(),
                forall|j: int| 0 <= j < k ==> !stamp_lt()(x, #[trigger] out@[j]),
            decreases out.len() - k,
        {
            k = k + 1;
        }
        proof {
            lemma_first_greater_at(out@, x, stamp_lt(), k as int);
            assert(stamps@.take(i + 1).drop_last() =~= stamps@.take(i as int));
        }
        out.insert(k, x);
        i = i + 1;
    }
    assert(stamps@.take(stamps@.len() as int) =~= stamps@);
    out
}

/// Paths in the order a directory walk visits them.
pub open spec fn child_lt() -> spec_fn(String, String) -> bool {
    |a: String, b: String| path_lt(a@, b@)
}

/// The children of a folder in the order the walk visits them: by path, component by
/// component.
pub fn walk_order(children: &Vec<String>) -> (r: Vec<String>)
    ensures
        r@ == insertion_sorted(children@, child_lt()),
{
    let mut out: Vec<String> = Vec::new();
    let mut i: usize = 0;
    assert(children@.take(0) =~= Seq::<String>::empty());
    while i < children.len()
        invariant
            i <= children@.len(),
            out@ == insertion_sorted(children@.take(i as int), child_lt()),
        decreases children.len() - i,
    {
        let x = children[i].clone();
        let mut k: usize = 0;
        while k < out.len() && !path_less(x.as_str(), out[k].as_str())
            invariant
                k <= out@.len(),
                x == children@[i as int],
                forall|j: int| 0 <= j < k ==> !child_lt()(x, #[trigger] out@[j]),
            decreases out.len() - k,
        {
            k = k + 1;
        }
        proof {
            lemma_first_greater_at(out@, x, child_lt(), k as int);
            assert(children@.take(i + 1).drop_last() =~= children@.take(i as int));
        }
        out.insert(k, x);
        i = i + 1;
    }
    assert(children@.take(children@.len() as int) =~= children@);
    out
}

/// What a directory walk does with an entry it meets.
#[derive(Clone, Copy, Debug, PartialEq, Eq, Structural)]
pub enum WalkStep {
    /// A link or another entry that is not relayed: counted as skipped.
    Skip,
    /// A folder: recorded, then walked.
    Descend,
    /// A file: recorded with its size.
    AddFile,
    /// Neither a file nor a folder: passed over.
    Ignore,
}

/// The step for an entry: links and unsupported entries are skipped, folders walked, files
/// recorded, and anything else passed over.
pub fn walk_step(skipped: bool, is_dir: bool, is_file: bool) -> (step: WalkStep)
    ensures
        step == if skipped {
            WalkStep::Skip
        } else if is_dir {
            WalkStep::Descend
        } else if is_file {
            WalkStep::AddFile
        } else {
            WalkStep::Ignore
        },
{
    if skipped {
        WalkStep::Skip
    } else if is_dir {
        WalkStep::Descend
    } else if is_file {
        WalkStep::AddFile
    } else {
        WalkStep::Ignore
    }
}

/// The hash of a copied file list.
pub fn hash_paths(stamps: &Vec<PathStamp>) -> (hash: String)
    ensures
        hash@ == spec_file_list_hash(stamps@),
        is_digest_hex(hash@),
{
    let sorted = sort_stamps(stamps);
    let mut data: Vec<u8> = Vec::new();
    push_bytes(&mut data, "file-list".as_bytes());
    let ghost head = data@;
    let mut i: usize = 0;
    assert(sorted@.take(0) =~= Seq::<PathStamp>::empty());
    while i < sorted.len()
        invariant
            i <= sorted@.len(),
            head == encode_utf8("file-list"@),
            data@ == head + stamps_bytes(sorted@.take(i as int)),
        decreases sorted.len() - i,
    {
        let st = &sorted[i];
        let ghost before = data@;
        push_bytes(&mut data, st.path.as_str().as_bytes());
        push_be8(&mut data, st.len);
        match st.modified {
            Some((secs, nanos)) => {
                push_be8(&mut data, secs);
                push_be4(&mut data, nanos);
            },
            None => {},
        }
        proof {
            assert(sorted@.take(i + 1).drop_last() =~= sorted@.take(i as int));
            assert(data@ =~= before + stamp_bytes(sorted@[i as int]));
        }
        i = i + 1;
    }
    assert(sorted@.take(sorted@.len() as int) =~= sorted@);
    sha256_hex(data.as_slice())
}

/// The hash of a file list does not depend on the order of its paths: any arrangement of the
/// same stamps hashes alike, provided each path (as components) is stamped only one way.
pub proof fn file_list_hash_ignores_order(stamps: Seq<PathStamp>, other: Seq<PathStamp>)
    requires
        stamps.to_multiset() == other.to_multiset(),
        forall|i: int, j: int|
            0 <= i < stamps.len() && 0 <= j < stamps.len() && spec_components(
                #[trigger] stamps[i].path@,
            ) == spec_components(#[trigger] stamps[j].path@) ==> stamps[i] == stamps[j],
    ensures
        spec_file_list_hash(stamps) == spec_file_list_hash(other),
{
    assert forall|a: PathStamp, b: PathStamp|
        stamps.contains(a) && stamps.contains(b) && a != b implies #[trigger] stamp_lt()(a, b)
            || #[trigger] stamp_lt()(b, a) by {
        let i = choose|i: int| 0 <= i < stamps.len() && stamps[i] == a;
        let j = choose|j: int| 0 <= j < stamps.len() && stamps[j] == b;
        assert(spec_components(stamps[i].path@) != spec_components(stamps[j].path@));
        lemma_components_lt_total(spec_components(a.path@), spec_components(b.path@));
    }
    assert(total_on(stamps, stamp_lt()));
    assert forall|a: PathStamp, b: PathStamp| #[trigger] stamp_lt()(a, b) implies !stamp_lt()(b, a) by {
        lemma_components_lt_asymmetric(spec_components(a.path@), spec_components(b.path@));
    }
    assert forall|a: PathStamp, b: PathStamp, c: PathStamp|
        #[trigger] stamp_lt()(a, b) && #[trigger] stamp_lt()(b, c) implies stamp_lt()(a, c) by {
        lemma_components_lt_transitive(
            spec_components(a.path@),
            spec_components(b.path@),
            spec_components(c.path@),
        );
    }
    insertion_sort_ignores_arrangement(stamps, other, stamp_lt());
}

/// A copied file list: its paths, the hash that tells it from other lists, and the name it
/// is shown under (the one path's name, or how many paths there are). Refused when empty.
pub fn file_clipboard(paths: Vec<String>, stamps: &Vec<PathStamp>) -> (r: Result<LocalFileClipboard, RelayError>)
    ensures
        paths@.len() == 0 ==> r == Err::<LocalFileClipboard, RelayError>(RelayError::EmptyClipboardFileList),
        paths@.len() > 0 ==> (r matches Ok(list) && {
            &&& list.paths@ == paths@
            &&& list.hash@ == spec_file_list_hash(stamps@)
            &&& list.display_name@ == if paths@.len() == 1 {
                spec_display_name_for_path(paths@[0]@)
            } else {
                spec_items_label(paths@.len())
            }
        }),
{
    if paths.len() == 0 {
        return Err(RelayError::EmptyClipboardFileList);
    }
    let display_name = if paths.len() == 1 {
        display_name_for_path(paths[0].as_str())
    } else {
        items_label(paths.len() as u64)
    };
    let hash = hash_paths(stamps);
    Ok(LocalFileClipboard { paths, hash, display_name })
}

/// Where a transfer's files are staged under its staging root.
pub open spec fn spec_transfer_payload_dir(staging_root: Seq<char>) -> Seq<char> {
    spec_path_push(staging_root, "payload"@)
}

pub fn transfer_payload_dir(staging_root: &str) -> (r: String)
    ensures
        r@ == spec_transfer_payload_dir(staging_root@),
{
    let root = chars_of(staging_root);
    let dir = path_push(&root, "payload");
    string_from_chars(&dir)
}

/// Where the top-level entries of a received transfer lie, when it was staged; the caller
/// keeps those that still exist.
pub open spec fn spec_payload_path_candidates(
    staging_path: Option<Seq<char>>,
    top_level_names: Seq<String>,
) -> Seq<Seq<char>> {
    match staging_path {
        None => Seq::empty(),
        Some(root) => top_level_names.map_values(
            |name: String| spec_path_push(spec_transfer_payload_dir(root), name@),
        ),
    }
}

pub fn payload_paths_from_job(job: &TransferJob) -> (r: Vec<String>)
    ensures
        strings_view(r@) == spec_payload_path_candidates(opt_string_view(job.staging_path), job.top_level_names@),
{
    candidates_under(&job.staging_path, &job.top_level_names)
}

/// Where the top-level entries of a received transfer lie under its staging root, if it has
/// one.
pub fn candidates_under(staging_path: &Option<String>, top_level_names: &Vec<String>) -> (r: Vec<String>)
    ensures
        strings_view(r@) == spec_payload_path_candidates(opt_string_view(*staging_path), top_level_names@),
{
    let mut r: Vec<String> = Vec::new();
    let root = match staging_path {
        None => {
            assert(strings_view(r@) =~= Seq::<StringView>::empty());
            return r;
        },
        Some(root) => root,
    };
    let dir = chars_of(transfer_payload_dir(root.as_str()).as_str());
    let ghost want = spec_payload_path_candidates(opt_string_view(*staging_path), top_level_names@);
    let mut i: usize = 0;
    while i < top_level_names.len()
        invariant
            i <= top_level_names@.len(),
            dir@ == spec_transfer_payload_dir(root@),
            want == top_level_names@.map_values(|name: String| spec_path_push(spec_transfer_payload_dir(root@), name@)),
            strings_view(r@) == want.take(i as int),
        decreases top_level_names.len() - i,
    {
        let p = path_push(&dir, top_level_names[i].as_str());
        let ghost before = r@;
        let ps = string_from_chars(&p);
        r.push(ps);
        proof {
            assert(strings_view(r@) =~= strings_view(before).push(ps@));
            assert(strings_view(r@) =~= want.take(i + 1));
        }
        i = i + 1;
    }
    assert(want.take(want.len() as int) =~= want);
    r
}

/// Whether a transfer of `required_bytes` fits: refused only when the free space is known
/// and smaller.
pub fn ensure_space_for(available: Option<u64>, required_bytes: u64) -> (r: Result<(), RelayError>)
    ensures
        r == (match available {
            Some(free) => if free < required_bytes {
                Err(RelayError::InsufficientDiskSpace)
            } else {
                Ok(())
            },
            None => Ok(()),
        }),
{
    if let Some(free) = available {
        if free < required_bytes {
            return Err(RelayError::InsufficientDiskSpace);
        }
    }
    Ok(())
}

/// A relative path of a received entry turned into a local path: each `/`-separated piece
/// appended in turn.
pub open spec fn spec_relative_path_to_native(relative: Seq<char>) -> Seq<char> {
    spec_segments(relative).fold_left(Seq::<char>::empty(), |p: Seq<char>, seg: Seq<char>| spec_path_push(p, seg))
}

pub fn relative_path_to_native(relative_path: &str) -> (r: String)
    ensures
        r@ == spec_relative_path_to_native(relative_path@),
{
    let chars = chars_of(relative_path);
    let segs = segments_of(&chars);
    let ghost all = spec_segments(relative_path@);
    let mut path: Vec<char> = Vec::new();
    let mut i: usize = 0;
    assert(all.take(0) =~= Seq::<Seq<char>>::empty());
    while i < segs.len()
        invariant
            i <= segs@.len(),
            segs@.len() == all.len(),
            forall|k: int| 0 <= k < segs@.len() ==> #[trigger] segs@[k]@ == all[k],
            path@ == all.take(i as int).fold_left(Seq::<char>::empty(), |p: Seq<char>, seg: Seq<char>| spec_path_push(p, seg)),
        decreases segs.len() - i,
    {
        proof {
            assert(all.take(i + 1).drop_last() =~= all.take(i as int));
        }
        let seg = string_from_chars(&segs[i]);
        path = path_push(&path, seg.as_str());
        i = i + 1;
    }
    assert(all.take(all.len() as int) =~= all);
    string_from_chars(&path)
}

} // verus!
