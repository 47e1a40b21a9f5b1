use vstd::prelude::*;

verus! {

use crate::errors::Error;

// --- Spec-level model of image references ---

/// Characters the destination registry refuses inside a tag.
pub open spec fn needs_flattening(c: char) -> bool {
    c == '/' || c == '@' || c == ':'
}

pub open spec fn flatten_char(c: char) -> char {
    if needs_flattening(c) {
        '_'
    } else {
        c
    }
}

/// `s` with every `/`, `@` and `:` replaced by `_`: a tag-safe token.
pub open spec fn flattened(s: Seq<char>) -> Seq<char>
    decreases s.len(),
{
    if s.len() == 0 {
        Seq::<char>::empty()
    } else {
        flattened(s.drop_last()).push(flatten_char(s.last()))
    }
}

/// How many times `c` occurs in `s`.
pub open spec fn occurrences(s: Seq<char>, c: char) -> nat
    decreases s.len(),
{
    if s.len() == 0 {
        0nat
    } else {
        occurrences(s.drop_last(), c) + (if s.last() == c {
            1nat
        } else {
            0nat
        })
    }
}

/// Index of the first occurrence of `c` in `s`, or `s.len()` if there is none.
pub open spec fn first_index(s: Seq<char>, c: char) -> int
    decreases s.len(),
{
    if s.len() == 0 {
        0
    } else if s[0] == c {
        0
    } else {
        1 + first_index(s.skip(1), c)
    }
}

/// The implicit tag given to a bare repository name.
pub open spec fn latest_tag() -> Seq<char> {
    seq!['l', 'a', 't', 'e', 's', 't']
}

/// Spec-level selector: a reference names its image either by a mutable tag
/// or by a content digest, never both.
pub enum SelectorView {
    ByTag { tag: Seq<char> },
    ByDigest { digest: Seq<char> },
}

/// Spec-level image reference.
pub struct RefView {
    pub repository: Seq<char>,
    pub selector: SelectorView,
    pub destination_tag: Seq<char>,
}

impl RefView {
    /// Structural invariant: the pieces carry no stray separators, and the
    /// destination tag is derived exactly as the parser derives it.
    pub open spec fn wf(self) -> bool {
        match self.selector {
            SelectorView::ByTag { tag } => {
                &&& !self.repository.contains(':')
                &&& !self.repository.contains('@')
                &&& !tag.contains(':')
                &&& !tag.contains('@')
                &&& self.destination_tag == self.repository + seq!['_'] + tag
            },
            SelectorView::ByDigest { digest } => {
                &&& !self.repository.contains('@')
                &&& self.destination_tag == flattened(
                    self.repository + seq!['@'] + digest,
                )
            },
        }
    }

    /// The canonical joined form: the identifier echoed back as
    /// `source_image`, and the one removed from the local store.
    pub open spec fn joined(self) -> Seq<char> {
        match self.selector {
            SelectorView::ByTag { tag } => self.repository + seq![':'] + tag,
            SelectorView::ByDigest { digest } => flattened(
                self.repository + seq!['@'] + digest,
            ),
        }
    }

    /// The identifier handed to the engine for pulling and tagging: the raw
    /// digest reference when a digest is present, the joined form otherwise.
    pub open spec fn pull_reference(self) -> Seq<char> {
        match self.selector {
            SelectorView::ByTag { tag } => self.joined(),
            SelectorView::ByDigest { digest } => self.repository + seq!['@'] + digest,
        }
    }
}

/// What parsing a raw reference yields.  A digest marker makes the whole
/// string a single segment; otherwise the string splits on `:` and more than
/// two segments are refused; a lone segment receives the implicit tag.
pub open spec fn parse_spec(raw: Seq<char>) -> Result<RefView, Error> {
    if raw.contains('@') {
        let i = first_index(raw, '@');
        Ok(
            RefView {
                repository: raw.take(i),
                selector: SelectorView::ByDigest { digest: raw.skip(i + 1) },
                destination_tag: flattened(raw),
            },
        )
    } else if occurrences(raw, ':') >= 2 {
        Err(Error::MalformedReference)
    } else if occurrences(raw, ':') == 1 {
        let i = first_index(raw, ':');
        Ok(
            RefView {
                repository: raw.take(i),
                selector: SelectorView::ByTag { tag: raw.skip(i + 1) },
                destination_tag: raw.take(i) + seq!['_'] + raw.skip(i + 1),
            },
        )
    } else {
        Ok(
            RefView {
                repository: raw,
                selector: SelectorView::ByTag { tag: latest_tag() },
                destination_tag: raw + seq!['_'] + latest_tag(),
            },
        )
    }
}

// --- Executable types ---

/// Executable selector, mirroring `SelectorView`.
#[derive(Debug, Clone)]
pub enum RefSelector {
    ByTag { tag: String },
    ByDigest { digest: String },
}

impl View for RefSelector {
    type V = SelectorView;

    open spec fn view(&self) -> SelectorView {
        match self {
            RefSelector::ByTag { tag } => SelectorView::ByTag { tag: tag@ },
            RefSelector::ByDigest { digest } => SelectorView::ByDigest { digest: digest@ },
        }
    }
}

/// A parsed image reference: the repository, the tag or digest selecting the
/// image within it, and the derived tag used at the destination repository.
#[derive(Debug, Clone)]
pub struct ImageReference {
    pub repository: String,
    pub selector: RefSelector,
    pub destination_tag: String,
}

impl View for ImageReference {
    type V = RefView;

    open spec fn view(&self) -> RefView {
        RefView {
            repository: self.repository@,
            selector: self.selector@,
            destination_tag: self.destination_tag@,
        }
    }
}

impl ImageReference {
    /// The canonical joined form: what the service echoes back as
    /// `source_image` and removes from the local store at the end.
    pub fn joined_form(&self) -> (r: String)
        ensures
            r@ == self@.joined(),
    {
        match &self.selector {
            RefSelector::ByTag { tag } => {
                let r = self.repository.clone().concat(":").concat(tag.as_str());
                proof {
                    reveal_strlit(":");
                    assert(":"@ =~= seq![':']);
                    assert(r@ =~= self.repository@ + seq![':'] + tag@);
                }
                r
            },
            RefSelector::ByDigest { digest } => {
                let s = self.repository.clone().concat("@").concat(digest.as_str());
                proof {
                    reveal_strlit("@");
                    assert("@"@ =~= seq!['@']);
                    assert(s@ =~= self.repository@ + seq!['@'] + digest@);
                }
                flatten(s.as_str())
            },
        }
    }

    /// The identifier handed to the engine for pulling and tagging: the raw
    /// digest reference when a digest is present, the joined form otherwise.
    pub fn pull_form(&self) -> (r: String)
        ensures
            r@ == self@.pull_reference(),
    {
        match &self.selector {
            RefSelector::ByTag { tag: _ } => self.joined_form(),
            RefSelector::ByDigest { digest } => {
                let r = self.repository.clone().concat("@").concat(digest.as_str());
                proof {
                    reveal_strlit("@");
                    assert("@"@ =~= seq!['@']);
                    assert(r@ =~= self.repository@ + seq!['@'] + digest@);
                }
                r
            },
        }
    }
}

// --- Helper lemmas ---

proof fn lemma_first_index_unique(s: Seq<char>, c: char, i: int)
    requires
        0 <= i < s.len(),
        s[i] == c,
        forall|j: int| 0 <= j < i ==> s[j] != c,
    ensures
        first_index(s, c) == i,
    decreases i,
{
    if i > 0 {
        assert(s[0] != c);
        assert forall|j: int| 0 <= j < i - 1 implies s.skip(1)[j] != c by {
            assert(s.skip(1)[j] == s[j + 1]);
        }
        assert(s.skip(1)[i - 1] == s[i]);
        lemma_first_index_unique(s.skip(1), c, i - 1);
    }
}

proof fn lemma_first_index_properties(s: Seq<char>, c: char)
    requires
        s.contains(c),
    ensures
        0 <= first_index(s, c) < s.len(),
        s[first_index(s, c)] == c,
        forall|j: int| 0 <= j < first_index(s, c) ==> s[j] != c,
    decreases s.len(),
{
    if s[0] != c {
        let w = choose|w: int| 0 <= w < s.len() && s[w] == c;
        assert(s.skip(1)[w - 1] == s[w]);
        assert(s.skip(1).contains(c));
        lemma_first_index_properties(s.skip(1), c);
        let fi = first_index(s.skip(1), c);
        assert(s[1 + fi] == s.skip(1)[fi]);
        assert forall|j: int| 0 <= j < 1 + fi implies s[j] != c by {
            if j > 0 {
                assert(s.skip(1)[j - 1] == s[j]);
            }
        }
    }
}

proof fn lemma_occurrences_concat(a: Seq<char>, b: Seq<char>, c: char)
    ensures
        occurrences(a + b, c) == occurrences(a, c) + occurrences(b, c),
    decreases b.len(),
{
    if b.len() == 0 {
        assert(a + b =~= a);
    } else {
        lemma_occurrences_concat(a, b.drop_last(), c);
        assert((a + b).drop_last() =~= a + b.drop_last());
        assert((a + b).last() == b.last());
    }
}

proof fn lemma_occurrences_contains(s: Seq<char>, c: char)
    ensures
        occurrences(s, c) == 0 <==> !s.contains(c),
    decreases s.len(),
{
    if s.len() > 0 {
        lemma_occurrences_contains(s.drop_last(), c);
        if s.last() == c {
            assert(s[s.len() - 1] == c);
            assert(s.contains(c));
        } else {
            if s.contains(c) {
                let w = choose|w: int| 0 <= w < s.len() && s[w] == c;
                assert(s.drop_last()[w] == c);
                assert(s.drop_last().contains(c));
            }
            if s.drop_last().contains(c) {
                let w = choose|w: int| 0 <= w < s.drop_last().len() && s.drop_last()[w] == c;
                assert(s[w] == c);
                assert(s.contains(c));
            }
        }
    }
}

// --- Executable helpers ---

fn count_char(s: &str, c: char) -> (r: usize)
    ensures
        r == occurrences(s@, c),
{
    let n = s.unicode_len();
    let mut count: usize = 0;
    let mut i: usize = 0;
    while i < n
        invariant
            i <= n,
            n == s@.len(),
            count <= i,
            count == occurrences(s@.take(i as int), c),
        decreases n - i,
    {
        let ch = s.get_char(i);
        proof {
            assert(s@.take(i as int + 1).drop_last() =~= s@.take(i as int));
            assert(s@.take(i as int + 1).last() == s@[i as int]);
        }
        if ch == c {
            count = count + 1;
        }
        i = i + 1;
    }
    proof {
        assert(s@.take(n as int) =~= s@);
    }
    count
}

fn find_char(s: &str, c: char) -> (r: Option<usize>)
    ensures
        match r {
            Some(i) => i < s@.len() && s@[i as int] == c && first_index(s@, c) == i,
            None => !s@.contains(c),
        },
{
    let n = s.unicode_len();
    let mut i: usize = 0;
    while i < n
        invariant
            i <= n,
            n == s@.len(),
            forall|j: int| 0 <= j < i ==> s@[j] != c,
        decreases n - i,
    {
        let ch = s.get_char(i);
        if ch == c {
            proof {
                lemma_first_index_unique(s@, c, i as int);
            }
            return Some(i);
        }
        i = i + 1;
    }
    proof {
        assert(!s@.contains(c));
    }
    None
}

fn flatten(s: &str) -> (r: String)
    ensures
        r@ == flattened(s@),
{
    let n = s.unicode_len();
    let mut out = String::from_str("");
    proof {
        reveal_strlit("");
        assert(out@ =~= flattened(s@.take(0)));
    }
    let mut i: usize = 0;
    while i < n
        invariant
            i <= n,
            n == s@.len(),
            out@ == flattened(s@.take(i as int)),
        decreases n - i,
    {
        let ch = s.get_char(i);
        if ch == '/' || ch == '@' || ch == ':' {
            out.append("_");
            proof {
                reveal_strlit("_");
                assert("_"@ =~= seq!['_']);
            }
        } else {
            out.append(s.substring_char(i, i + 1));
            proof {
                assert(s@.subrange(i as int, i as int + 1) =~= seq![s@[i as int]]);
            }
        }
        proof {
            let t = s@.take(i as int + 1);
            assert(t.drop_last() =~= s@.take(i as int));
            assert(t.last() == s@[i as int]);
            assert(out@ =~= flattened(t));
        }
        i = i + 1;
    }
    proof {
        assert(s@.take(n as int) =~= s@);
    }
    out
}

// --- Laws ---

/// Parser round-trip: a plain `repository:tag` reference parses successfully,
/// its joined form is the input itself, and its destination tag is the two
/// segments joined with `_` instead of `:`.
pub proof fn lemma_parse_round_trip(repo: Seq<char>, tag: Seq<char>)
    requires
        !repo.contains(':'),
        !repo.contains('@'),
        !tag.contains(':'),
        !tag.contains('@'),
    ensures
        parse_spec(repo + seq![':'] + tag) is Ok,
        (parse_spec(repo + seq![':'] + tag))->Ok_0.joined() == repo + seq![':'] + tag,
        (parse_spec(repo + seq![':'] + tag))->Ok_0.destination_tag == repo + seq!['_'] + tag,
{
    let raw = repo + seq![':'] + tag;
    assert forall|j: int| 0 <= j < raw.len() implies raw[j] != '@' by {
        if j < repo.len() {
            assert(raw[j] == repo[j]);
            if repo[j] == '@' {
                assert(repo.contains('@'));
            }
        } else if j == repo.len() {
            assert(raw[j] == ':');
        } else {
            assert(raw[j] == tag[j - repo.len() - 1]);
            if tag[j - repo.len() - 1] == '@' {
                assert(tag.contains('@'));
            }
        }
    }
    assert(!raw.contains('@'));
    lemma_occurrences_contains(repo, ':');
    lemma_occurrences_contains(tag, ':');
    lemma_occurrences_concat(repo, seq![':'], ':');
    lemma_occurrences_concat(repo + seq![':'], tag, ':');
    assert(seq![':'].drop_last() =~= Seq::<char>::empty());
    assert(occurrences(Seq::<char>::empty(), ':') == 0);
    assert(occurrences(seq![':'], ':') == 1);
    assert(occurrences(raw, ':') == 1);
    assert(raw[repo.len() as int] == ':');
    assert forall|j: int| 0 <= j < repo.len() implies raw[j] != ':' by {
        assert(raw[j] == repo[j]);
        if repo[j] == ':' {
            assert(repo.contains(':'));
        }
    }
    lemma_first_index_unique(raw, ':', repo.len() as int);
    assert(raw.take(repo.len() as int) =~= repo);
    assert(raw.skip(repo.len() as int + 1) =~= tag);
}

/// Implicit tag: a bare repository name (no tag, no digest marker) parses
/// successfully as `repository:latest`, destination tag `repository_latest`.
pub proof fn lemma_parse_implicit_tag(repo: Seq<char>)
    requires
        !repo.contains(':'),
        !repo.contains('@'),
    ensures
        parse_spec(repo) is Ok,
        (parse_spec(repo))->Ok_0.joined() == repo + seq![':'] + latest_tag(),
        (parse_spec(repo))->Ok_0.destination_tag == repo + seq!['_'] + latest_tag(),
{
    lemma_occurrences_contains(repo, ':');
}

/// Digest flattening: any reference carrying `@` parses successfully; its
/// joined form and destination tag are both the raw string with `/`, `@`
/// and `:` replaced by `_`, and the pull identifier is the raw reference.
pub proof fn lemma_parse_digest_flattening(raw: Seq<char>)
    requires
        raw.contains('@'),
    ensures
        parse_spec(raw) is Ok,
        (parse_spec(raw))->Ok_0.joined() == flattened(raw),
        (parse_spec(raw))->Ok_0.destination_tag == flattened(raw),
        (parse_spec(raw))->Ok_0.pull_reference() == raw,
{
    lemma_first_index_properties(raw, '@');
    let i = first_index(raw, '@');
    assert(raw.take(i) + seq!['@'] + raw.skip(i + 1) =~= raw);
}

/// Rejection: without a digest marker, a reference that splits into three
/// or more colon-delimited segments is refused as malformed.
pub proof fn lemma_parse_rejects_extra_segments(raw: Seq<char>)
    requires
        !raw.contains('@'),
        occurrences(raw, ':') >= 2,
    ensures
        parse_spec(raw) == Err::<RefView, Error>(Error::MalformedReference),
{
}

/// Every reference the parser accepts is well-formed.
pub proof fn lemma_parse_spec_wf(raw: Seq<char>)
    ensures
        parse_spec(raw) is Ok ==> (parse_spec(raw))->Ok_0.wf(),
{
    if raw.contains('@') {
        lemma_first_index_properties(raw, '@');
        let i = first_index(raw, '@');
        if raw.take(i).contains('@') {
            let w = choose|w: int| 0 <= w < i && raw.take(i)[w] == '@';
            assert(raw[w] == '@');
        }
        assert(raw.take(i) + seq!['@'] + raw.skip(i + 1) =~= raw);
    } else {
        lemma_occurrences_contains(raw, ':');
        if occurrences(raw, ':') == 1 {
            lemma_first_index_properties(raw, ':');
            let i = first_index(raw, ':');
            assert(raw.take(i) + seq![':'] + raw.skip(i + 1) =~= raw);
            lemma_occurrences_concat(raw.take(i), seq![':'], ':');
            lemma_occurrences_concat(raw.take(i) + seq![':'], raw.skip(i + 1), ':');
            assert(seq![':'].drop_last() =~= Seq::<char>::empty());
            assert(occurrences(Seq::<char>::empty(), ':') == 0);
            assert(occurrences(seq![':'], ':') == 1);
            lemma_occurrences_contains(raw.take(i), ':');
            lemma_occurrences_contains(raw.skip(i + 1), ':');
            if raw.take(i).contains('@') {
                let w = choose|w: int| 0 <= w < i && raw.take(i)[w] == '@';
                assert(raw[w] == '@');
                assert(raw.contains('@'));
            }
            if raw.skip(i + 1).contains('@') {
                let w = choose|w: int|
                    0 <= w < raw.skip(i + 1).len() && #[trigger] raw.skip(i + 1)[w] == '@';
                assert(raw[w + i + 1] == '@');
                assert(raw.contains('@'));
            }
        } else if occurrences(raw, ':') == 0 {
            assert forall|j: int|
                0 <= j < latest_tag().len() implies latest_tag()[j] != ':' && latest_tag()[j]
                != '@' by {
            }
            assert(!latest_tag().contains(':'));
            assert(!latest_tag().contains('@'));
        }
    }
}

// --- The parser ---

/// Parse a raw image reference into its canonical form, deriving the tag
/// used at the destination repository.  The behavior, for every input, is
/// exactly `parse_spec`.
pub fn parse(raw: &str) -> (r: Result<ImageReference, Error>)
    ensures
        ({
            let m = parse_spec(raw@);
            match r {
                Ok(img) => m is Ok && img@ == m->Ok_0,
                Err(e) => m is Err && e == m->Err_0,
            }
        }),
{
    let n = raw.unicode_len();
    match find_char(raw, '@') {
        Some(i) => {
            let repository = String::from_str(raw.substring_char(0, i));
            let digest = String::from_str(raw.substring_char(i + 1, n));
            let destination_tag = flatten(raw);
            proof {
                assert(raw@.contains('@'));
                assert(repository@ =~= raw@.take(i as int));
                assert(digest@ =~= raw@.skip(i as int + 1));
            }
            Ok(
                ImageReference {
                    repository,
                    selector: RefSelector::ByDigest { digest },
                    destination_tag,
                },
            )
        },
        None => {
            let colons = count_char(raw, ':');
            proof {
                lemma_occurrences_contains(raw@, ':');
            }
            if colons >= 2 {
                Err(Error::MalformedReference)
            } else {
                match find_char(raw, ':') {
                    Some(i) => {
                        let repository = String::from_str(raw.substring_char(0, i));
                        let tag = String::from_str(raw.substring_char(i + 1, n));
                        let destination_tag = String::from_str(
                            raw.substring_char(0, i),
                        ).concat("_").concat(raw.substring_char(i + 1, n));
                        proof {
                            assert(raw@.contains(':'));
                            reveal_strlit("_");
                            assert("_"@ =~= seq!['_']);
                            assert(repository@ =~= raw@.take(i as int));
                            assert(tag@ =~= raw@.skip(i as int + 1));
                            assert(destination_tag@ =~= raw@.take(i as int) + seq!['_']
                                + raw@.skip(i as int + 1));
                        }
                        Ok(
                            ImageReference {
                                repository,
                                selector: RefSelector::ByTag { tag },
                                destination_tag,
                            },
                        )
                    },
                    None => {
                        let repository = String::from_str(raw);
                        let tag = String::from_str("latest");
                        let destination_tag = String::from_str(raw).concat("_latest");
                        proof {
                            reveal_strlit("latest");
                            reveal_strlit("_latest");
                            assert("latest"@ =~= latest_tag());
                            assert("_latest"@ =~= seq!['_'] + latest_tag());
                            assert(destination_tag@ =~= raw@ + seq!['_'] + latest_tag());
                        }
                        Ok(
                            ImageReference {
                                repository,
                                selector: RefSelector::ByTag { tag },
                                destination_tag,
                            },
                        )
                    },
                }
            }
        },
    }
}

} // verus!
