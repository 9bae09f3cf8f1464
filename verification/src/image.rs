//! Container image references.
//!
//! An image reference such as `registry.example.com:5000/team/app:1.2` names a
//! registry (optional), a repository, and a version selector (a tag, a digest,
//! or nothing).  `DockerImage::from_str` parses a free-form reference and
//! rejects malformed repositories and versions instead of coercing them.

use vstd::prelude::*;
use vstd::string::StrSliceExecFns;
use vstd::string::StringExecFns;

verus! {

/// Word characters allowed to open a tag: ASCII letters, digits and `_`.
pub open spec fn is_word_char(c: char) -> bool {
    ('a' <= c && c <= 'z') || ('A' <= c && c <= 'Z') || ('0' <= c && c <= '9') || c == '_'
}

/// Characters allowed after the first character of a tag.
pub open spec fn is_tag_char(c: char) -> bool {
    is_word_char(c) || c == '.' || c == '-'
}

/// Hexadecimal digits, upper or lower case.
pub open spec fn is_hex_char(c: char) -> bool {
    ('0' <= c && c <= '9') || ('a' <= c && c <= 'f') || ('A' <= c && c <= 'F')
}

/// A well-formed tag: one word character, then up to 127 tag characters.
pub open spec fn tag_valid(s: Seq<char>) -> bool {
    &&& 1 <= s.len() <= 128
    &&& is_word_char(s[0])
    &&& forall|i: int| 1 <= i < s.len() ==> is_tag_char(#[trigger] s[i])
}

/// A well-formed digest: at least 32 hexadecimal digits.
pub open spec fn digest_valid(s: Seq<char>) -> bool {
    &&& s.len() >= 32
    &&& forall|i: int| 0 <= i < s.len() ==> is_hex_char(#[trigger] s[i])
}

/// The message returned for a repository holding `@` or `:`.
pub open spec fn msg_invalid_repository(repo: Seq<char>) -> Seq<char> {
    "invalid repository name: "@ + repo
}

/// The message returned for a malformed tag.
pub open spec fn msg_invalid_tag(tag: Seq<char>) -> Seq<char> {
    "invalid tag version: "@ + tag
}

/// The message returned for a malformed digest.
pub open spec fn msg_invalid_digest(hash: Seq<char>) -> Seq<char> {
    "invalid sha256 hash version: "@ + hash
}

fn is_word_char_x(c: char) -> (r: bool)
    ensures
        r == is_word_char(c),
{
    ('a' <= c && c <= 'z') || ('A' <= c && c <= 'Z') || ('0' <= c && c <= '9') || c == '_'
}

fn is_tag_char_x(c: char) -> (r: bool)
    ensures
        r == is_tag_char(c),
{
    is_word_char_x(c) || c == '.' || c == '-'
}

fn is_hex_char_x(c: char) -> (r: bool)
    ensures
        r == is_hex_char(c),
{
    ('0' <= c && c <= '9') || ('a' <= c && c <= 'f') || ('A' <= c && c <= 'F')
}

/// Concatenates a fixed message prefix with the offending input.
pub(crate) fn err_message(prefix: &str, rest: &str) -> (m: String)
    ensures
        m@ == prefix@ + rest@,
{
    let mut m = prefix.to_owned();
    m.append(rest);
    m
}

/// The version selector of an image reference.
#[derive(Debug, Clone, PartialEq)]
pub enum Version {
    /// No tag and no digest: any version of the image.
    Any,
    /// A content digest, given after `@sha256:`.
    Sha256(String),
    /// A named tag, given after `:`.
    Tag(String),
}

impl Version {
    /// Accepts `hash` as a digest exactly when it is 32 or more hex digits.
    pub fn from_sha256(hash: &str) -> (r: Result<Version, String>)
        ensures
            digest_valid(hash@) ==> (r matches Ok(v) && v matches Version::Sha256(h) && h@
                == hash@),
            !digest_valid(hash@) ==> (r matches Err(m) && m@ == msg_invalid_digest(hash@)),
    {
        let n = hash.unicode_len();
        if n < 32 {
            return Err(err_message("invalid sha256 hash version: ", hash));
        }
        let mut i: usize = 0;
        while i < n
            invariant
                n == hash@.len(),
                i <= n,
                forall|j: int| 0 <= j < i ==> is_hex_char(#[trigger] hash@[j]),
            decreases n - i,
        {
            if !is_hex_char_x(hash.get_char(i)) {
                return Err(err_message("invalid sha256 hash version: ", hash));
            }
            i += 1;
        }
        Ok(Version::Sha256(hash.to_owned()))
    }

    /// Accepts `tag` exactly when it is a word character followed by up to 127
    /// word characters, dots or dashes.
    pub fn from_tag(tag: &str) -> (r: Result<Version, String>)
        ensures
            tag_valid(tag@) ==> (r matches Ok(v) && v matches Version::Tag(t) && t@ == tag@),
            !tag_valid(tag@) ==> (r matches Err(m) && m@ == msg_invalid_tag(tag@)),
    {
        let n = tag.unicode_len();
        if n == 0 || n > 128 {
            return Err(err_message("invalid tag version: ", tag));
        }
        if !is_word_char_x(tag.get_char(0)) {
            return Err(err_message("invalid tag version: ", tag));
        }
        let mut i: usize = 1;
        while i < n
            invariant
                n == tag@.len(),
                1 <= i <= n,
                forall|j: int| 1 <= j < i ==> is_tag_char(#[trigger] tag@[j]),
            decreases n - i,
        {
            if !is_tag_char_x(tag.get_char(i)) {
                return Err(err_message("invalid tag version: ", tag));
            }
            i += 1;
        }
        Ok(Version::Tag(tag.to_owned()))
    }
}

/// A parsed, validated image reference.
///
/// `repository` never holds `@` or `:`; `version` is validated on
/// construction by `from_str`.
#[derive(Debug, Clone, PartialEq)]
pub struct DockerImage {
    /// The reference exactly as it was given.
    pub raw_name: String,
    /// The registry segment, when the reference names one.
    pub registry: Option<String>,
    /// The repository part, free of `@` and `:`.
    pub repository: String,
    /// The version selector.
    pub version: Version,
    /// A local build context path; images with one are built, not pulled.
    pub build_instructions: Option<String>,
}

impl DockerImage {
    /// Assembles a reference from already-validated parts.
    pub fn new(raw_name: &str, registry: Option<&str>, repository: &str, version: Version) -> (r:
        Self)
        ensures
            r.raw_name@ == raw_name@,
            r.registry is Some <==> registry is Some,
            registry is Some ==> r.registry.unwrap()@ == registry.unwrap()@,
            r.repository@ == repository@,
            r.version == version,
            r.build_instructions is None,
    {
        let reg: Option<String> = match registry {
            Some(g) => Some(g.to_owned()),
            None => None,
        };
        DockerImage {
            raw_name: raw_name.to_owned(),
            registry: reg,
            repository: repository.to_owned(),
            version,
            build_instructions: None,
        }
    }

    /// The reference as it was originally written.
    pub fn get_full_name(&self) -> (r: String)
        ensures
            r@ == self.raw_name@,
    {
        self.raw_name.clone()
    }

    /// The pair a registry filter is built from: the repository qualified by
    /// its registry, and the tag or digest when one is selected.
    pub fn filter_reference(&self) -> (r: (String, Option<String>))
        ensures
            r.0@ == match self.registry {
                Some(g) => g@ + "/"@ + self.repository@,
                None => self.repository@,
            },
            match self.version {
                Version::Any => r.1 is None,
                Version::Sha256(h) => r.1 matches Some(t) && t@ == h@,
                Version::Tag(g) => r.1 matches Some(t) && t@ == g@,
            },
    {
        let name: String = match &self.registry {
            Some(g) => {
                let mut s = g.clone();
                s.append("/");
                s.append(self.repository.as_str());
                s
            },
            None => self.repository.clone(),
        };
        let tag: Option<String> = match &self.version {
            Version::Any => None,
            Version::Sha256(h) => Some(h.clone()),
            Version::Tag(g) => Some(g.clone()),
        };
        (name, tag)
    }
}

/// The first position at or after `i` holding `c`.
pub open spec fn find_char_from(s: Seq<char>, c: char, i: int) -> Option<int>
    decreases s.len() - i,
{
    if i < 0 || i >= s.len() {
        None
    } else if s[i] == c {
        Some(i)
    } else {
        find_char_from(s, c, i + 1)
    }
}

/// The first position of `c` in `s`.
pub open spec fn find_char(s: Seq<char>, c: char) -> Option<int> {
    find_char_from(s, c, 0)
}

/// `c` occurs somewhere in `s`.
pub open spec fn contains_char(s: Seq<char>, c: char) -> bool {
    exists|i: int| 0 <= i < s.len() && s[i] == c
}

/// What the first-occurrence search returns: a position holding `c` with
/// none before it, or nothing when `c` is absent from position `i` on.
pub proof fn lemma_find_char_from(s: Seq<char>, c: char, i: int)
    requires
        0 <= i <= s.len(),
    ensures
        match find_char_from(s, c, i) {
            Some(k) => i <= k < s.len() && s[k] == c && (forall|j: int|
                i <= j < k ==> s[j] != c),
            None => forall|j: int| i <= j < s.len() ==> s[j] != c,
        },
    decreases s.len() - i,
{
    if i < s.len() && s[i] != c {
        lemma_find_char_from(s, c, i + 1);
    }
}

/// The eight characters `@sha256:` stand at position `i`.
pub open spec fn digest_marker_at(s: Seq<char>, i: int) -> bool {
    &&& 0 <= i
    &&& i + 8 <= s.len()
    &&& s[i] == '@'
    &&& s[i + 1] == 's'
    &&& s[i + 2] == 'h'
    &&& s[i + 3] == 'a'
    &&& s[i + 4] == '2'
    &&& s[i + 5] == '5'
    &&& s[i + 6] == '6'
    &&& s[i + 7] == ':'
}

/// The first position at or after `i` where the digest marker stands.
pub open spec fn find_marker_from(s: Seq<char>, i: int) -> Option<int>
    decreases s.len() - i,
{
    if i < 0 || i + 8 > s.len() {
        None
    } else if digest_marker_at(s, i) {
        Some(i)
    } else {
        find_marker_from(s, i + 1)
    }
}

/// The first position of the digest marker `@sha256:`.
pub open spec fn find_marker(s: Seq<char>) -> Option<int> {
    find_marker_from(s, 0)
}

/// What the marker search returns: a marker position with none before it,
/// or nothing when no digest marker stands at or after position `i`.
pub proof fn lemma_find_marker_from(s: Seq<char>, i: int)
    requires
        0 <= i <= s.len(),
    ensures
        match find_marker_from(s, i) {
            Some(k) => digest_marker_at(s, k) && (forall|j: int|
                i <= j < k ==> !digest_marker_at(s, j)),
            None => forall|j: int| i <= j < s.len() ==> !digest_marker_at(s, j),
        },
    decreases s.len() - i,
{
    if i + 8 <= s.len() && !digest_marker_at(s, i) {
        lemma_find_marker_from(s, i + 1);
    }
}

/// A segment before the first `/` counts as a registry when it holds `.` or
/// `:` or starts with `localhost`.
pub open spec fn starts_with_localhost(s: Seq<char>) -> bool {
    &&& s.len() >= 9
    &&& s[0] == 'l'
    &&& s[1] == 'o'
    &&& s[2] == 'c'
    &&& s[3] == 'a'
    &&& s[4] == 'l'
    &&& s[5] == 'h'
    &&& s[6] == 'o'
    &&& s[7] == 's'
    &&& s[8] == 't'
}

/// Whether the segment left of the first `/` names a registry.
pub open spec fn is_registry_segment(s: Seq<char>) -> bool {
    contains_char(s, '.') || contains_char(s, ':') || starts_with_localhost(s)
}

/// A version selector at the abstract level.
pub enum ParsedVersion {
    Any,
    Sha256(Seq<char>),
    Tag(Seq<char>),
}

/// An image reference at the abstract level.
pub struct ParsedReference {
    pub registry: Option<Seq<char>>,
    pub repository: Seq<char>,
    pub version: ParsedVersion,
}

/// Splits off the registry: the part before the first `/`, when that part
/// names a registry; otherwise the whole string is repository and version.
pub open spec fn split_registry(s: Seq<char>) -> (Option<Seq<char>>, Seq<char>) {
    match find_char(s, '/') {
        Some(i) => {
            let left = s.subrange(0, i);
            if is_registry_segment(left) {
                (Some(left), s.subrange(i + 1, s.len() as int))
            } else {
                (None, s)
            }
        },
        None => (None, s),
    }
}

/// What parsing an image reference yields.
///
/// After the registry is split off, a digest follows the first `@sha256:`;
/// otherwise a tag follows the first `:`; otherwise the version is `Any`.
/// A malformed digest or tag is rejected first; then a repository still
/// holding `@` or `:` is rejected.  The error is the exact message text.
pub open spec fn spec_parse(s: Seq<char>) -> Result<ParsedReference, Seq<char>> {
    let (reg, rv) = split_registry(s);
    match find_marker(rv) {
        Some(i) => {
            let repo = rv.subrange(0, i);
            let hash = rv.subrange(i + 8, rv.len() as int);
            if !digest_valid(hash) {
                Err(msg_invalid_digest(hash))
            } else if contains_char(repo, '@') || contains_char(repo, ':') {
                Err(msg_invalid_repository(repo))
            } else {
                Ok(
                    ParsedReference {
                        registry: reg,
                        repository: repo,
                        version: ParsedVersion::Sha256(hash),
                    },
                )
            }
        },
        None => match find_char(rv, ':') {
            Some(i) => {
                let repo = rv.subrange(0, i);
                let tag = rv.subrange(i + 1, rv.len() as int);
                if !tag_valid(tag) {
                    Err(msg_invalid_tag(tag))
                } else if contains_char(repo, '@') || contains_char(repo, ':') {
                    Err(msg_invalid_repository(repo))
                } else {
                    Ok(
                        ParsedReference {
                            registry: reg,
                            repository: repo,
                            version: ParsedVersion::Tag(tag),
                        },
                    )
                }
            },
            None => {
                if contains_char(rv, '@') || contains_char(rv, ':') {
                    Err(msg_invalid_repository(rv))
                } else {
                    Ok(
                        ParsedReference {
                            registry: reg,
                            repository: rv,
                            version: ParsedVersion::Any,
                        },
                    )
                }
            },
        },
    }
}

/// An exec version selector realises an abstract one.
pub open spec fn version_matches(v: Version, pv: ParsedVersion) -> bool {
    match pv {
        ParsedVersion::Any => v is Any,
        ParsedVersion::Sha256(h) => v matches Version::Sha256(x) && x@ == h,
        ParsedVersion::Tag(t) => v matches Version::Tag(x) && x@ == t,
    }
}

impl DockerImage {
    /// The image realises the abstract reference parsed out of `raw`.
    pub open spec fn matches_parsed(self, raw: Seq<char>, p: ParsedReference) -> bool {
        &&& self.raw_name@ == raw
        &&& (self.registry is Some <==> p.registry is Some)
        &&& (p.registry is Some ==> self.registry.unwrap()@ == p.registry.unwrap())
        &&& self.repository@ == p.repository
        &&& version_matches(self.version, p.version)
        &&& self.build_instructions is None
    }
}

fn find_char_x(s: &str, c: char) -> (r: Option<usize>)
    ensures
        match r {
            Some(i) => i < s@.len() && find_char(s@, c) == Some(i as int),
            None => find_char(s@, c) is None,
        },
{
    let n = s.unicode_len();
    let mut i: usize = 0;
    while i < n
        invariant
            n == s@.len(),
            i <= n,
            find_char_from(s@, c, 0) == find_char_from(s@, c, i as int),
        decreases n - i,
    {
        if s.get_char(i) == c {
            return Some(i);
        }
        i += 1;
    }
    None
}

fn contains_char_x(s: &str, c: char) -> (r: bool)
    ensures
        r == contains_char(s@, c),
{
    proof {
        lemma_find_char_from(s@, c, 0);
    }
    match find_char_x(s, c) {
        Some(_) => true,
        None => false,
    }
}

fn marker_at_x(s: &str, i: usize) -> (r: bool)
    requires
        i + 8 <= s@.len(),
        s@.len() <= usize::MAX,
    ensures
        r == digest_marker_at(s@, i as int),
{
    s.get_char(i) == '@' && s.get_char(i + 1) == 's' && s.get_char(i + 2) == 'h' && s.get_char(
        i + 3,
    ) == 'a' && s.get_char(i + 4) == '2' && s.get_char(i + 5) == '5' && s.get_char(i + 6) == '6'
        && s.get_char(i + 7) == ':'
}

fn find_marker_x(s: &str) -> (r: Option<usize>)
    ensures
        match r {
            Some(i) => i + 8 <= s@.len() && find_marker(s@) == Some(i as int),
            None => find_marker(s@) is None,
        },
{
    let n = s.unicode_len();
    if n < 8 {
        return None;
    }
    let mut i: usize = 0;
    while i <= n - 8
        invariant
            n == s@.len(),
            8 <= n,
            i <= n - 7,
            find_marker_from(s@, 0) == find_marker_from(s@, i as int),
        decreases n - i,
    {
        if marker_at_x(s, i) {
            return Some(i);
        }
        i += 1;
    }
    None
}

fn is_registry_x(s: &str) -> (r: bool)
    ensures
        r == is_registry_segment(s@),
{
    if contains_char_x(s, '.') || contains_char_x(s, ':') {
        return true;
    }
    let n = s.unicode_len();
    n >= 9 && s.get_char(0) == 'l' && s.get_char(1) == 'o' && s.get_char(2) == 'c' && s.get_char(3)
        == 'a' && s.get_char(4) == 'l' && s.get_char(5) == 'h' && s.get_char(6) == 'o'
        && s.get_char(7) == 's' && s.get_char(8) == 't'
}

/// Rejects a repository holding `@` or `:`; otherwise assembles the image.
fn finish_parse(raw: &str, registry: Option<&str>, repo: &str, version: Version) -> (r: Result<
    DockerImage,
    String,
>)
    ensures
        (contains_char(repo@, '@') || contains_char(repo@, ':')) ==> (r matches Err(e) && e@
            == msg_invalid_repository(repo@)),
        !(contains_char(repo@, '@') || contains_char(repo@, ':')) ==> (r matches Ok(img) && {
            &&& img.raw_name@ == raw@
            &&& (img.registry is Some <==> registry is Some)
            &&& (registry is Some ==> img.registry.unwrap()@ == registry.unwrap()@)
            &&& img.repository@ == repo@
            &&& img.version == version
            &&& img.build_instructions is None
        }),
{
    if contains_char_x(repo, '@') || contains_char_x(repo, ':') {
        Err(err_message("invalid repository name: ", repo))
    } else {
        Ok(DockerImage::new(raw, registry, repo, version))
    }
}

impl DockerImage {
    /// Parses a free-form image reference.
    ///
    /// The outcome, success or exact error message, is `spec_parse` of the
    /// input text.
    pub fn from_str(full_image_name: &str) -> (r: Result<DockerImage, String>)
        ensures
            match spec_parse(full_image_name@) {
                Ok(p) => r matches Ok(img) && img.matches_parsed(full_image_name@, p),
                Err(m) => r matches Err(e) && e@ == m,
            },
    {
        let n = full_image_name.unicode_len();
        let mut registry: Option<&str> = None;
        let mut rest: &str = full_image_name;
        match find_char_x(full_image_name, '/') {
            Some(i) => {
                let left = full_image_name.substring_char(0, i);
                if is_registry_x(left) {
                    registry = Some(left);
                    rest = full_image_name.substring_char(i + 1, n);
                }
            },
            None => {},
        }
        proof {
            assert(split_registry(full_image_name@) == (
                match registry {
                    Some(g) => Some(g@),
                    None => None::<Seq<char>>,
                },
                rest@,
            ));
        }
        let m = rest.unicode_len();
        match find_marker_x(rest) {
            Some(i) => {
                let repo = rest.substring_char(0, i);
                let hash = rest.substring_char(i + 8, m);
                match Version::from_sha256(hash) {
                    Ok(v) => finish_parse(full_image_name, registry, repo, v),
                    Err(e) => Err(e),
                }
            },
            None => match find_char_x(rest, ':') {
                Some(i) => {
                    let repo = rest.substring_char(0, i);
                    let tag = rest.substring_char(i + 1, m);
                    match Version::from_tag(tag) {
                        Ok(v) => finish_parse(full_image_name, registry, repo, v),
                        Err(e) => Err(e),
                    }
                },
                None => finish_parse(full_image_name, registry, rest, Version::Any),
            },
        }
    }
}

} // verus!
