//! Poems: the library of moon poems per language, and the poem file parser.
//!
//! A poem file holds the title on its first line, the author on its second,
//! then an optional `---` separator, then the body; trailing blank lines
//! are dropped.  Trimming uses the ASCII whitespace characters.

use vstd::prelude::*;
use vstd::string::StrSliceExecFns;
use crate::lang::Language;

verus! {

#[derive(Debug)]
pub struct Poem {
    pub title: String,
    pub author: String,
    pub lines: Vec<String>,
}

/// The abstract value of a poem: title, author and body lines.
pub open spec fn poem_view(p: &Poem) -> (Seq<char>, Seq<char>, Seq<Seq<char>>) {
    (p.title@, p.author@, p.lines.deep_view())
}

/// A copy of a poem with the same abstract value.
pub fn copy_poem(p: &Poem) -> (q: Poem)
    ensures
        poem_view(&q) == poem_view(p),
{
    let mut lines: Vec<String> = Vec::new();
    let n: usize = p.lines.len();
    let mut i: usize = 0;
    while i < n
        invariant
            i <= n,
            n == p.lines@.len(),
            lines@.len() == i,
            forall|j: int| 0 <= j < i as int ==> (#[trigger] lines@[j])@ == p.lines@[j]@,
        decreases n - i,
    {
        lines.push(p.lines[i].clone());
        i = i + 1;
    }
    proof {
        assert(lines.deep_view() =~~= p.lines.deep_view());
    }
    Poem { title: p.title.clone(), author: p.author.clone(), lines }
}

/// The per-language poem library.
#[derive(Debug)]
pub struct PoemLibrary {
    en: Vec<Poem>,
    zh: Vec<Poem>,
    fr: Vec<Poem>,
    ja: Vec<Poem>,
    es: Vec<Poem>,
}

pub closed spec fn spec_for_language(lib: &PoemLibrary, lang: Language) -> Seq<Poem> {
    match lang {
        Language::English => lib.en@,
        Language::Chinese => lib.zh@,
        Language::French => lib.fr@,
        Language::Japanese => lib.ja@,
        Language::Spanish => lib.es@,
    }
}

/// Relies on rand::random for u64: some unsigned value; nothing further
/// is assumed of it.
#[verifier::external_body]
fn random_u64() -> u64 {
    rand::random::<u64>()
}

impl PoemLibrary {
    /// An empty library.
    pub fn new() -> (lib: PoemLibrary)
        ensures
            forall|l: Language| spec_for_language(&lib, l).len() == 0,
    {
        PoemLibrary {
            en: Vec::new(),
            zh: Vec::new(),
            fr: Vec::new(),
            ja: Vec::new(),
            es: Vec::new(),
        }
    }

    /// The poems of one language.
    pub fn for_language(&self, lang: Language) -> (r: &Vec<Poem>)
        ensures
            r@ == spec_for_language(self, lang),
    {
        match lang {
            Language::English => &self.en,
            Language::Chinese => &self.zh,
            Language::French => &self.fr,
            Language::Japanese => &self.ja,
            Language::Spanish => &self.es,
        }
    }

    /// Add a poem under one language; the other languages are unchanged.
    pub fn push(&mut self, lang: Language, poem: Poem)
        ensures
            spec_for_language(final(self), lang) == spec_for_language(old(self), lang).push(poem),
            forall|l: Language|
                l != lang ==> spec_for_language(final(self), l) == spec_for_language(old(self), l),
    {
        match lang {
            Language::English => self.en.push(poem),
            Language::Chinese => self.zh.push(poem),
            Language::French => self.fr.push(poem),
            Language::Japanese => self.ja.push(poem),
            Language::Spanish => self.es.push(poem),
        }
    }

    /// Some poem of the language, or `None` when it has none.
    pub fn random_poem(&self, lang: Language) -> (r: Option<Poem>)
        ensures
            r is Some <==> spec_for_language(self, lang).len() > 0,
            r is Some ==> exists|i: int|
                0 <= i < spec_for_language(self, lang).len() && poem_view(&r->Some_0) == poem_view(
                    &spec_for_language(self, lang)[i],
                ),
    {
        let list = self.for_language(lang);
        let n: usize = list.len();
        if n == 0 {
            Option::None
        } else {
            let idx: usize = (random_u64() % (n as u64)) as usize;
            let q = copy_poem(&list[idx]);
            proof {
                assert(poem_view(&q) == poem_view(&spec_for_language(self, lang)[idx as int]));
            }
            Option::Some(q)
        }
    }
}

// ---------------------------------------------------------------------------
// Trimming on ASCII whitespace.
// ---------------------------------------------------------------------------

pub open spec fn is_space_char(ch: char) -> bool {
    ch == ' ' || ch == '\t' || ch == '\r' || ch == '\n'
}

pub open spec fn trim_front(s: Seq<char>) -> Seq<char>
    decreases s.len(),
{
    if s.len() > 0 && is_space_char(s[0]) {
        trim_front(s.drop_first())
    } else {
        s
    }
}

pub open spec fn trim_back(s: Seq<char>) -> Seq<char>
    decreases s.len(),
{
    if s.len() > 0 && is_space_char(s.last()) {
        trim_back(s.drop_last())
    } else {
        s
    }
}

/// The string without its leading and trailing ASCII whitespace.
pub open spec fn trim_spec(s: Seq<char>) -> Seq<char> {
    trim_back(trim_front(s))
}

proof fn lemma_trim_front_at(s: Seq<char>, a: int)
    requires
        0 <= a <= s.len(),
        forall|m: int| 0 <= m < a ==> is_space_char(s[m]),
        a == s.len() || !is_space_char(s[a]),
    ensures
        trim_front(s) == s.skip(a),
    decreases a,
{
    if a == 0 {
        assert(s.skip(0) =~= s);
    } else {
        let t = s.drop_first();
        assert(forall|m: int| 0 <= m < a - 1 ==> t[m] == s[m + 1] && is_space_char(t[m]));
        if a < s.len() {
            assert(t[a - 1] == s[a]);
        }
        lemma_trim_front_at(t, a - 1);
        assert(t.skip(a - 1) =~= s.skip(a));
    }
}

proof fn lemma_trim_back_at(s: Seq<char>, b: int)
    requires
        0 <= b <= s.len(),
        forall|m: int| b <= m < s.len() ==> is_space_char(s[m]),
        b == 0 || !is_space_char(s[b - 1]),
    ensures
        trim_back(s) == s.take(b),
    decreases s.len() - b,
{
    if b == s.len() {
        if s.len() > 0 && is_space_char(s.last()) {
            assert(!is_space_char(s[b - 1]));
            assert(false);
        }
        assert(s.take(b) =~= s);
    } else {
        assert(is_space_char(s.last()));
        let t = s.drop_last();
        assert(forall|m: int| b <= m < t.len() ==> t[m] == s[m] && is_space_char(t[m]));
        if b > 0 {
            assert(t[b - 1] == s[b - 1]);
        }
        lemma_trim_back_at(t, b);
        assert(t.take(b) =~= s.take(b));
    }
}

/// Whether one character is ASCII whitespace.
fn is_space(ch: char) -> (r: bool)
    ensures
        r == is_space_char(ch),
{
    ch == ' ' || ch == '\t' || ch == '\r' || ch == '\n'
}

/// The slice of `s` without leading and trailing ASCII whitespace.
pub fn trim_str<'a>(s: &'a str) -> (r: &'a str)
    ensures
        r@ == trim_spec(s@),
{
    let n: usize = s.unicode_len();
    let mut a: usize = 0;
    while a < n && is_space(s.get_char(a))
        invariant
            a <= n,
            n == s@.len(),
            forall|m: int| 0 <= m < a as int ==> is_space_char(s@[m]),
        decreases n - a,
    {
        a = a + 1;
    }
    proof {
        lemma_trim_front_at(s@, a as int);
    }
    if a == n {
        let r = s.substring_char(a, n);
        proof {
            assert(r@ =~= trim_spec(s@)) by {
                assert(trim_front(s@) =~= s@.subrange(a as int, n as int));
                assert(trim_front(s@).len() == 0);
            }
        }
        r
    } else {
        let mut b: usize = n;
        while b > a && is_space(s.get_char(b - 1))
            invariant
                a <= b <= n,
                n == s@.len(),
                forall|m: int| b as int <= m < n ==> is_space_char(s@[m]),
            decreases b,
        {
            b = b - 1;
        }
        proof {
            let f = trim_front(s@);
            assert(f == s@.skip(a as int));
            if b == a {
                assert(!is_space_char(s@[a as int]));
                assert(is_space_char(s@[b as int]));
                assert(false);
            }
            assert(forall|m: int|
                b as int - a <= m < f.len() ==> f[m] == s@[m + a] && is_space_char(f[m]));
            assert(f[b - a - 1] == s@[b as int - 1]);
            lemma_trim_back_at(f, b as int - a);
            assert(f.take(b as int - a) =~= s@.subrange(a as int, b as int));
        }
        s.substring_char(a, b)
    }
}

/// Whether the string is nothing but ASCII whitespace.
pub fn is_blank(s: &str) -> (r: bool)
    ensures
        r == (trim_spec(s@).len() == 0),
{
    let n: usize = s.unicode_len();
    let mut a: usize = 0;
    while a < n && is_space(s.get_char(a))
        invariant
            a <= n,
            n == s@.len(),
            forall|m: int| 0 <= m < a as int ==> is_space_char(s@[m]),
        decreases n - a,
    {
        a = a + 1;
    }
    proof {
        lemma_trim_front_at(s@, a as int);
        if a < n {
            let f = trim_front(s@);
            assert(f == s@.skip(a as int));
            assert(f.len() > 0 && !is_space_char(f[0]));
            if trim_back(f).len() == 0 {
                lemma_trim_back_nonempty(f);
            }
        }
    }
    a == n
}

/// A nonempty string that does not start with whitespace keeps its first
/// character through `trim_back`.
proof fn lemma_trim_back_nonempty(s: Seq<char>)
    requires
        s.len() > 0,
        !is_space_char(s[0]),
    ensures
        trim_back(s).len() > 0,
    decreases s.len(),
{
    if s.len() > 0 && is_space_char(s.last()) {
        let t = s.drop_last();
        assert(t[0] == s[0]);
        lemma_trim_back_nonempty(t);
    }
}

// ---------------------------------------------------------------------------
// Line splitting.
// ---------------------------------------------------------------------------

/// Index of the first newline, or the length if there is none.
pub open spec fn first_nl(s: Seq<char>) -> nat
    decreases s.len(),
{
    if s.len() == 0 {
        0
    } else if s[0] == '\n' {
        0
    } else {
        1 + first_nl(s.drop_first())
    }
}

/// The sequence without its trailing carriage returns.
pub open spec fn strip_cr(s: Seq<char>) -> Seq<char>
    decreases s.len(),
{
    if s.len() > 0 && s.last() == '\r' {
        strip_cr(s.drop_last())
    } else {
        s
    }
}

/// The newline-separated segments of `s`, each without trailing carriage
/// returns; always at least one segment.
pub open spec fn split_lines_chars(s: Seq<char>) -> Seq<Seq<char>>
    decreases s.len(),
{
    let i = first_nl(s) as int;
    let head = strip_cr(s.subrange(0, i));
    if i >= s.len() {
        seq![head]
    } else {
        seq![head] + split_lines_chars(s.subrange(i + 1, s.len() as int))
    }
}

proof fn lemma_first_nl_at(s: Seq<char>, i: int)
    requires
        0 <= i <= s.len(),
        forall|m: int| 0 <= m < i ==> s[m] != '\n',
        i == s.len() || s[i] == '\n',
    ensures
        first_nl(s) == i,
    decreases s.len(),
{
    if s.len() == 0 {
    } else if i == 0 {
    } else {
        assert(s[0] != '\n');
        let t = s.drop_first();
        assert(forall|m: int| 0 <= m < i - 1 ==> t[m] == s[m + 1] && t[m] != '\n');
        if i < s.len() {
            assert(t[i - 1] == s[i]);
        }
        lemma_first_nl_at(t, i - 1);
    }
}

proof fn lemma_strip_cr_at(s: Seq<char>, e: int)
    requires
        0 <= e <= s.len(),
        forall|m: int| e <= m < s.len() ==> s[m] == '\r',
        e == 0 || s[e - 1] != '\r',
    ensures
        strip_cr(s) == s.take(e),
    decreases s.len() - e,
{
    if e == s.len() {
        if s.len() > 0 && s.last() == '\r' {
            assert(false);
        }
        assert(s.take(e) =~= s);
    } else {
        assert(s.last() == '\r');
        let t = s.drop_last();
        assert(forall|m: int| e <= m < t.len() ==> t[m] == s[m] && t[m] == '\r');
        if e > 0 {
            assert(t[e - 1] == s[e - 1]);
        }
        lemma_strip_cr_at(t, e);
        assert(t.take(e) =~= s.take(e));
    }
}

/// Split a text into its lines, dropping trailing carriage returns.
pub fn split_lines(text: &str) -> (v: Vec<String>)
    ensures
        v.deep_view() == split_lines_chars(text@),
        v@.len() >= 1,
{
    let n: usize = text.unicode_len();
    let mut out: Vec<String> = Vec::new();
    let mut j: usize = 0;
    proof {
        assert(text@.subrange(0, n as int) =~= text@);
        assert(out.deep_view() =~= Seq::<Seq<char>>::empty());
        assert(Seq::<Seq<char>>::empty() + split_lines_chars(text@) =~= split_lines_chars(text@));
    }
    loop
        invariant_except_break
            j <= n,
            n == text@.len(),
            out.deep_view() + split_lines_chars(text@.subrange(j as int, n as int))
                == split_lines_chars(text@),
        ensures
            out.deep_view() == split_lines_chars(text@),
            out@.len() >= 1,
        decreases n - j,
    {
        let ghost tail = text@.subrange(j as int, n as int);
        let mut k: usize = j;
        while k < n && text.get_char(k) != '\n'
            invariant
                j <= k <= n,
                n == text@.len(),
                forall|m: int| j <= m < k ==> text@[m] != '\n',
            decreases n - k,
        {
            k = k + 1;
        }
        proof {
            assert(forall|m: int| 0 <= m < k - j ==> tail[m] == text@[j + m] && tail[m] != '\n');
            if k < n {
                assert(tail[k - j as int] == text@[k as int]);
            }
            lemma_first_nl_at(tail, k - j as int);
        }
        let mut e: usize = k;
        while e > j && text.get_char(e - 1) == '\r'
            invariant
                j <= e <= k <= n,
                n == text@.len(),
                forall|m: int| e <= m < k ==> text@[m] == '\r',
            decreases e,
        {
            e = e - 1;
        }
        proof {
            let seg = tail.subrange(0, k - j as int);
            assert(forall|m: int|
                e - j <= m < seg.len() ==> seg[m] == text@[j + m] && seg[m] == '\r');
            if e > j {
                assert(seg[e - j - 1 as int] == text@[e as int - 1]);
            }
            lemma_strip_cr_at(seg, e - j as int);
            assert(seg.take(e - j as int) =~= text@.subrange(j as int, e as int));
        }
        let piece: String = text.substring_char(j, e).to_owned();
        let ghost old_out = out.deep_view();
        out.push(piece);
        proof {
            assert(out.deep_view() =~~= old_out.push(piece@));
        }
        if k == n {
            proof {
                assert(split_lines_chars(tail) =~= seq![piece@]);
                assert(old_out.push(piece@) =~= old_out + seq![piece@]);
            }
            break;
        }
        proof {
            assert(tail.subrange(k - j + 1, tail.len() as int)
                =~= text@.subrange(k + 1, n as int));
            assert(split_lines_chars(tail) =~= seq![piece@] + split_lines_chars(
                text@.subrange(k + 1, n as int),
            ));
            assert(old_out.push(piece@) =~= old_out + seq![piece@]);
            assert((old_out + seq![piece@]) + split_lines_chars(
                text@.subrange(k + 1, n as int),
            ) =~= old_out + (seq![piece@] + split_lines_chars(
                text@.subrange(k + 1, n as int),
            )));
        }
        j = k + 1;
    }
    out
}

// ---------------------------------------------------------------------------
// The poem file parser.
// ---------------------------------------------------------------------------

/// The line is the `---` separator, up to surrounding whitespace.
pub open spec fn is_sep_line(l: Seq<char>) -> bool {
    trim_spec(l) == seq!['-', '-', '-']
}

/// The body lines without trailing blank lines.
pub open spec fn drop_trailing_blank(b: Seq<Seq<char>>) -> Seq<Seq<char>>
    decreases b.len(),
{
    if b.len() > 0 && trim_spec(b.last()).len() == 0 {
        drop_trailing_blank(b.drop_last())
    } else {
        b
    }
}

/// What a poem text parses to: the trimmed title, the trimmed author, and
/// the body lines (after an optional leading separator, without trailing
/// blank lines); nothing when the title or the body is empty.
pub open spec fn spec_parse_poem(s: Seq<char>) -> Option<(Seq<char>, Seq<char>, Seq<Seq<char>>)> {
    let ls = split_lines_chars(s);
    let title = trim_spec(ls[0]);
    let author = if ls.len() >= 2 {
        trim_spec(ls[1])
    } else {
        Seq::empty()
    };
    let rest = if ls.len() >= 2 {
        ls.skip(2)
    } else {
        Seq::empty()
    };
    let body0 = if rest.len() > 0 && is_sep_line(rest[0]) {
        rest.drop_first()
    } else {
        rest
    };
    let body = drop_trailing_blank(body0);
    if title.len() == 0 || body.len() == 0 {
        Option::None
    } else {
        Option::Some((title, author, body))
    }
}

/// Whether the line is the `---` separator up to whitespace.
fn is_separator(s: &str) -> (r: bool)
    ensures
        r == is_sep_line(s@),
{
    let t = trim_str(s);
    let n: usize = t.unicode_len();
    if n != 3 {
        proof {
            assert(trim_spec(s@).len() != 3);
        }
        false
    } else {
        let r = t.get_char(0) == '-' && t.get_char(1) == '-' && t.get_char(2) == '-';
        proof {
            if r {
                assert(t@ =~= seq!['-', '-', '-']);
            } else {
                assert(t@ != seq!['-', '-', '-']);
            }
        }
        r
    }
}

/// Parse one poem file: title line, author line, optional `---`, body.
pub fn parse_poem_text(text: &str) -> (r: Option<Poem>)
    ensures
        r is Some <==> spec_parse_poem(text@) is Some,
        r is Some ==> (r->Some_0.title@, r->Some_0.author@, r->Some_0.lines.deep_view())
            == spec_parse_poem(text@)->Some_0,
{
    let ghost ls = split_lines_chars(text@);
    let segs: Vec<String> = split_lines(text);
    let nseg: usize = segs.len();
    proof {
        assert(segs.deep_view().len() == nseg);
        assert(forall|i: int| 0 <= i < nseg ==> (#[trigger] segs@[i])@ == segs.deep_view()[i]);
    }
    let title: String = trim_str(segs[0].as_str()).to_owned();
    let author: String = if nseg >= 2 {
        trim_str(segs[1].as_str()).to_owned()
    } else {
        String::new()
    };
    let ghost rest: Seq<Seq<char>> = if ls.len() >= 2 {
        ls.skip(2)
    } else {
        Seq::empty()
    };
    let start: usize = if nseg > 2 && is_separator(segs[2].as_str()) {
        3
    } else {
        2
    };
    let ghost body0: Seq<Seq<char>> = if rest.len() > 0 && is_sep_line(rest[0]) {
        rest.drop_first()
    } else {
        rest
    };
    proof {
        if nseg >= 2 {
            if start == 3 {
                assert(body0 =~= ls.skip(3));
            } else {
                assert(body0 =~= ls.skip(2));
            }
        } else {
            assert(body0 =~= Seq::<Seq<char>>::empty());
        }
    }
    let mut body: Vec<String> = Vec::new();
    let mut i: usize = start;
    if i < nseg {
        while i < nseg
            invariant
                start <= i <= nseg,
                start == 2 || start == 3,
                nseg == segs@.len(),
                segs.deep_view() == ls,
                body.deep_view() =~= ls.skip(start as int).take(i - start),
            decreases nseg - i,
        {
            let ghost old_body = body.deep_view();
            body.push(segs[i].clone());
            proof {
                assert(body.deep_view() =~~= old_body.push(segs@[i as int]@));
                assert(old_body.push(segs@[i as int]@) =~= ls.skip(start as int).take(
                    i + 1 - start,
                ));
            }
            i = i + 1;
        }
    }
    proof {
        if start <= nseg {
            assert(body.deep_view() =~= ls.skip(start as int));
            assert(body.deep_view() =~= body0);
        } else {
            assert(nseg == 1 && start == 2);
            assert(body.deep_view() =~= Seq::<Seq<char>>::empty());
            assert(rest =~= Seq::<Seq<char>>::empty());
            assert(body.deep_view() =~= body0);
        }
    }
    while body.len() > 0 && is_blank(body[body.len() - 1].as_str())
        invariant
            drop_trailing_blank(body.deep_view()) == drop_trailing_blank(body0),
        decreases body@.len(),
    {
        let ghost before = body.deep_view();
        proof {
            assert(before.last() == body@[body@.len() - 1]@);
        }
        body.pop();
        proof {
            assert(body.deep_view() =~~= before.drop_last());
        }
    }
    proof {
        assert(drop_trailing_blank(body.deep_view()) == body.deep_view());
    }
    if title.as_str().is_empty() || body.len() == 0 {
        Option::None
    } else {
        Option::Some(Poem { title, author, lines: body })
    }
}

// ---------------------------------------------------------------------------
// Merging a loaded library with the built-in defaults.
// ---------------------------------------------------------------------------

/// The abstract values of a poem list.
pub open spec fn poems_views(s: Seq<Poem>) -> Seq<(Seq<char>, Seq<char>, Seq<Seq<char>>)> {
    s.map_values(|p: Poem| (p.title@, p.author@, p.lines.deep_view()))
}

/// Copy one language: the loaded poems when there are any, else the
/// defaults.
fn merge_one(out: &mut PoemLibrary, lang: Language, loaded: &PoemLibrary, defaults: &PoemLibrary)
    requires
        spec_for_language(old(out), lang).len() == 0,
    ensures
        poems_views(spec_for_language(final(out), lang)) == (
        if spec_for_language(loaded, lang).len() > 0 {
            poems_views(spec_for_language(loaded, lang))
        } else {
            poems_views(spec_for_language(defaults, lang))
        }),
        forall|l: Language|
            l != lang ==> spec_for_language(final(out), l) == spec_for_language(old(out), l),
{
    let src_list: &Vec<Poem> = if loaded.for_language(lang).len() > 0 {
        loaded.for_language(lang)
    } else {
        defaults.for_language(lang)
    };
    let n: usize = src_list.len();
    let mut i: usize = 0;
    while i < n
        invariant
            i <= n,
            n == src_list@.len(),
            spec_for_language(out, lang).len() == i,
            poems_views(spec_for_language(out, lang)) =~= poems_views(src_list@.take(i as int)),
            forall|l: Language|
                l != lang ==> spec_for_language(out, l) == spec_for_language(old(out), l),
        decreases n - i,
    {
        let ghost cur = spec_for_language(out, lang);
        let p = copy_poem(&src_list[i]);
        proof {
            assert(poems_views(cur.push(p)) =~= poems_views(cur).push(
                (p.title@, p.author@, p.lines.deep_view()),
            ));
            assert(poems_views(src_list@.take(i + 1)) =~= poems_views(
                src_list@.take(i as int),
            ).push(
                (
                    src_list@[i as int].title@,
                    src_list@[i as int].author@,
                    src_list@[i as int].lines.deep_view(),
                ),
            ));
        }
        out.push(lang, p);
        i = i + 1;
    }
    proof {
        assert(src_list@.take(n as int) =~= src_list@);
    }
}

/// Merge a loaded library with the defaults: for each language, the loaded
/// poems are used when there are any, else the built-in ones.
pub fn merge_libraries(loaded: &PoemLibrary, defaults: &PoemLibrary) -> (merged: PoemLibrary)
    ensures
        forall|l: Language|
            #[trigger] poems_views(spec_for_language(&merged, l)) == (
            if spec_for_language(loaded, l).len() > 0 {
                poems_views(spec_for_language(loaded, l))
            } else {
                poems_views(spec_for_language(defaults, l))
            }),
{
    let mut merged = PoemLibrary::new();
    merge_one(&mut merged, Language::English, loaded, defaults);
    merge_one(&mut merged, Language::Chinese, loaded, defaults);
    merge_one(&mut merged, Language::French, loaded, defaults);
    merge_one(&mut merged, Language::Japanese, loaded, defaults);
    merge_one(&mut merged, Language::Spanish, loaded, defaults);
    proof {
        assert forall|l: Language| #[trigger] poems_views(spec_for_language(&merged, l)) == (
        if spec_for_language(loaded, l).len() > 0 {
            poems_views(spec_for_language(loaded, l))
        } else {
            poems_views(spec_for_language(defaults, l))
        }) by {
            assert(l == Language::English || l == Language::Chinese || l == Language::French
                || l == Language::Japanese || l == Language::Spanish);
        }
    }
    merged
}

/// The directory name of a language's poems.
pub fn lang_dir(lang: Language) -> (r: &'static str)
    ensures
        lang == Language::English ==> r@ == "en"@,
        lang == Language::Chinese ==> r@ == "zh"@,
        lang == Language::French ==> r@ == "fr"@,
        lang == Language::Japanese ==> r@ == "ja"@,
        lang == Language::Spanish ==> r@ == "es"@,
{
    match lang {
        Language::English => "en",
        Language::Chinese => "zh",
        Language::French => "fr",
        Language::Japanese => "ja",
        Language::Spanish => "es",
    }
}

// ---------------------------------------------------------------------------
// The built-in poems.
// ---------------------------------------------------------------------------

fn owned_lines(a: &str, b: &str, c: &str, d: &str) -> (v: Vec<String>)
    ensures
        v@.len() == (if d@.len() == 0 { 3int } else { 4int }),
        v@.len() >= 3,
        v@[0]@ == a@,
        v@[1]@ == b@,
        v@[2]@ == c@,
        v@.len() == 4 ==> v@[3]@ == d@,
{
    let mut v: Vec<String> = Vec::new();
    v.push(a.to_owned());
    v.push(b.to_owned());
    v.push(c.to_owned());
    if !d.is_empty() {
        v.push(d.to_owned());
    }
    v
}

fn built_poem(title: &str, author: &str, lines: Vec<String>) -> (p: Poem)
    ensures
        p.title@ == title@,
        p.author@ == author@,
        p.lines == lines,
{
    Poem { title: title.to_owned(), author: author.to_owned(), lines }
}

/// The poems embedded in the binary, so the application still works when
/// no poem directory is present.
pub fn default_poems() -> (lib: PoemLibrary)
    ensures
        spec_for_language(&lib, Language::English).len() == 2,
        spec_for_language(&lib, Language::Chinese).len() == 3,
        spec_for_language(&lib, Language::French).len() == 2,
        spec_for_language(&lib, Language::Japanese).len() == 2,
        spec_for_language(&lib, Language::Spanish).len() == 2,
        forall|l: Language| spec_for_language(&lib, l).len() > 0,
{
    let mut lib = PoemLibrary::new();
    lib.push(
        Language::English,
        built_poem(
            "The Moon",
            "Robert Louis Stevenson",
            owned_lines(
                "The moon has a face like the clock in the hall;",
                "She shines on thieves on the garden wall,",
                "On streets and fields and harbor quays,",
                "And birdies asleep in the forks of the trees.",
            ),
        ),
    );
    lib.push(
        Language::English,
        built_poem(
            "To the Moon (excerpt)",
            "Percy Bysshe Shelley",
            owned_lines(
                "Art thou pale for weariness",
                "Of climbing heaven and gazing on the earth,",
                "Wandering companionless",
                "Among the stars that have a different birth,",
            ),
        ),
    );
    lib.push(
        Language::Chinese,
        built_poem(
            "静夜思",
            "李白",
            owned_lines("床前明月光，", "疑是地上霜。", "举头望明月，", "低头思故乡。"),
        ),
    );
    lib.push(
        Language::Chinese,
        built_poem(
            "望月怀远",
            "张九龄",
            owned_lines("海上生明月，", "天涯共此时。", "情人怨遥夜，", "竟夕起相思。"),
        ),
    );
    lib.push(
        Language::Chinese,
        built_poem(
            "水调歌头·明月几时有（节选）",
            "苏轼",
            owned_lines("明月几时有？把酒问青天。", "不知天上宫阙，今夕是何年。", "但愿人长久，千里共婵娟。", ""),
        ),
    );
    lib.push(
        Language::French,
        built_poem(
            "Clair de lune (excerpt)",
            "Paul Verlaine",
            owned_lines(
                "Votre âme est un paysage choisi",
                "Que vont charmant masques et bergamasques,",
                "Jouant du luth et dansant et quasi",
                "Tristes sous leurs déguisements fantasques.",
            ),
        ),
    );
    lib.push(
        Language::French,
        built_poem(
            "Au clair de la lune",
            "Chanson traditionnelle",
            owned_lines(
                "Au clair de la lune,",
                "Mon ami Pierrot,",
                "Prête-moi ta plume",
                "Pour écrire un mot.",
            ),
        ),
    );
    lib.push(
        Language::Japanese,
        built_poem("名月や", "松尾芭蕉", owned_lines("名月や", "池をめぐりて", "夜もすがら", "")),
    );
    lib.push(
        Language::Japanese,
        built_poem("名月を", "小林一茶", owned_lines("名月を", "取ってくれろと", "泣く子かな", "")),
    );
    lib.push(
        Language::Spanish,
        built_poem(
            "Romance de la luna, luna (excerpt)",
            "Federico García Lorca",
            owned_lines(
                "La luna vino a la fragua",
                "con su polisón de nardos.",
                "El niño la mira mira.",
                "El niño la está mirando.",
            ),
        ),
    );
    lib.push(
        Language::Spanish,
        built_poem(
            "Luna, lunera",
            "Rima tradicional",
            owned_lines("Luna, lunera,", "cascabelera,", "debajo de la cama", "tienes la cena."),
        ),
    );
    lib
}

} // verus!
