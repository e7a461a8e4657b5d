//! Which project a directory holds, and the name of its slot in the cache.
//!
//! A project is known by its declared name, or else the name of its directory,
//! and by a short fingerprint of its path. The two together name the
//! project's directory below the target root.

use vstd::prelude::*;
use vstd::string::StringExecFns;
use vstd::utf8::encode_utf8;

verus! {

/// The name of a project that declares none and whose path ends in no name.
pub const FALLBACK_NAME: &'static str = "unknown";

/// How many hexadecimal digits of the path's digest the fingerprint keeps.
pub const HASH_LENGTH: usize = 7;

/// The `package` table of a manifest, as far as it is read.
#[derive(Debug, PartialEq, Eq)]
pub struct Package {
    pub name: Option<String>,
}

/// A parsed manifest, as far as it is read.
#[derive(Debug, PartialEq, Eq)]
pub struct CargoToml {
    pub package: Option<Package>,
}

/// What was found of the file `Cargo.toml` at a project's root.
#[derive(Debug, PartialEq, Eq)]
pub enum ManifestFile {
    /// There is no such file.
    Missing,
    /// The file is there and could not be read.
    Unreadable,
    /// The file was read and is no manifest.
    Malformed,
    /// The file was read and parsed.
    Parsed(CargoToml),
}

/// What was found of a directory that may hold a project.
#[derive(Debug, PartialEq, Eq)]
pub struct ProjectDir {
    /// The directory's absolute path, as text.
    pub path: String,
    /// The last component of the path, where it has one that is text.
    pub dir_name: Option<String>,
    /// The manifest at the directory's root.
    pub manifest: ManifestFile,
}

/// The name that a manifest declares: the `name` of its `package` table.
pub open spec fn declared_name(manifest: ManifestFile) -> Option<Seq<char>> {
    match manifest {
        ManifestFile::Parsed(CargoToml { package: Some(Package { name: Some(name) }) }) => Some(
            name@,
        ),
        _ => None,
    }
}

/// The name of a project: the declared one, else the directory's, else a
/// fixed word.
pub open spec fn project_name(project: ProjectDir) -> Seq<char> {
    match declared_name(project.manifest) {
        Some(name) => name,
        None => match project.dir_name {
            Some(dir_name) => dir_name@,
            None => FALLBACK_NAME@,
        },
    }
}

/// The MD5 digest of `data`.
pub uninterp spec fn md5_digest(data: Seq<u8>) -> Seq<u8>;

/// The lower-case hexadecimal digit of a value below 16.
pub open spec fn hex_digit(v: int) -> char
    recommends
        0 <= v < 16,
{
    if v == 0 {
        '0'
    } else if v == 1 {
        '1'
    } else if v == 2 {
        '2'
    } else if v == 3 {
        '3'
    } else if v == 4 {
        '4'
    } else if v == 5 {
        '5'
    } else if v == 6 {
        '6'
    } else if v == 7 {
        '7'
    } else if v == 8 {
        '8'
    } else if v == 9 {
        '9'
    } else if v == 10 {
        'a'
    } else if v == 11 {
        'b'
    } else if v == 12 {
        'c'
    } else if v == 13 {
        'd'
    } else if v == 14 {
        'e'
    } else {
        'f'
    }
}

/// Digit `i` of `bytes` written in hexadecimal, two digits to the byte, the
/// high half first.
pub open spec fn hex_digit_at(bytes: Seq<u8>, i: int) -> char
    recommends
        0 <= i < 2 * bytes.len(),
{
    if i % 2 == 0 {
        hex_digit(bytes[i / 2] as int / 16)
    } else {
        hex_digit(bytes[i / 2] as int % 16)
    }
}

/// `bytes` in lower-case hexadecimal.
pub open spec fn hex_text(bytes: Seq<u8>) -> Seq<char> {
    Seq::new(2 * bytes.len(), |i: int| hex_digit_at(bytes, i))
}

/// The fingerprint of a path: the first digits of the MD5 digest of its UTF-8
/// bytes, in hexadecimal.
pub open spec fn project_hash(path: Seq<char>) -> Seq<char> {
    hex_text(md5_digest(encode_utf8(path))).take(HASH_LENGTH as int)
}

/// A project's identity in the cache.
#[derive(Clone, Debug, PartialEq, Eq)]
pub struct ProjectIdentifier {
    name: String,
    hash: String,
}

/// A [`ProjectIdentifier`] as plain values.
pub struct ProjectIdentifierView {
    pub name: Seq<char>,
    pub hash: Seq<char>,
}

impl View for ProjectIdentifier {
    type V = ProjectIdentifierView;

    closed spec fn view(&self) -> ProjectIdentifierView {
        ProjectIdentifierView { name: self.name@, hash: self.hash@ }
    }
}

/// The identity that a directory gets.
pub open spec fn identity_of(project: ProjectDir) -> ProjectIdentifierView {
    ProjectIdentifierView { name: project_name(project), hash: project_hash(project.path@) }
}

/// The name of a project's directory below the target root.
pub open spec fn identifier_text(id: ProjectIdentifierView) -> Seq<char> {
    id.name + "-"@ + id.hash
}

/// Calls `md5::compute` on `data` and hands out the 16 bytes of the digest.
/// The contract claims that they depend on `data` alone, and gives them the
/// name [`md5_digest`]; it says nothing else of them.
#[verifier::external_body]
fn md5_compute(data: &[u8]) -> (digest: [u8; 16])
    ensures
        digest@ == md5_digest(data@),
{
    md5::compute(data).0
}

/// The text of one hexadecimal digit.
fn hex_str(v: u8) -> (text: &'static str)
    requires
        v < 16,
    ensures
        text@ == seq![hex_digit(v as int)],
{
    proof {
        reveal_strlit("0");
        reveal_strlit("1");
        reveal_strlit("2");
        reveal_strlit("3");
        reveal_strlit("4");
        reveal_strlit("5");
        reveal_strlit("6");
        reveal_strlit("7");
        reveal_strlit("8");
        reveal_strlit("9");
        reveal_strlit("a");
        reveal_strlit("b");
        reveal_strlit("c");
        reveal_strlit("d");
        reveal_strlit("e");
        reveal_strlit("f");
    }
    let text = if v == 0 {
        "0"
    } else if v == 1 {
        "1"
    } else if v == 2 {
        "2"
    } else if v == 3 {
        "3"
    } else if v == 4 {
        "4"
    } else if v == 5 {
        "5"
    } else if v == 6 {
        "6"
    } else if v == 7 {
        "7"
    } else if v == 8 {
        "8"
    } else if v == 9 {
        "9"
    } else if v == 10 {
        "a"
    } else if v == 11 {
        "b"
    } else if v == 12 {
        "c"
    } else if v == 13 {
        "d"
    } else if v == 14 {
        "e"
    } else {
        "f"
    };
    assert(text@ =~= seq![hex_digit(v as int)]);
    text
}

/// Whether `text` is a fingerprint by its form: [`HASH_LENGTH`] lower-case
/// hexadecimal digits.
pub open spec fn is_fingerprint(text: Seq<char>) -> bool {
    &&& text.len() == HASH_LENGTH
    &&& forall|i: int| 0 <= i < text.len() ==> is_hex_char(#[trigger] text[i])
}

/// Whether `c` is a lower-case hexadecimal digit.
pub open spec fn is_hex_char(c: char) -> bool {
    ('0' <= c && c <= '9') || ('a' <= c && c <= 'f')
}

/// The first [`HASH_LENGTH`] hexadecimal digits of a digest.
pub fn hash_fragment(digest: &[u8; 16]) -> (hash: String)
    ensures
        hash@ == hex_text(digest@).take(HASH_LENGTH as int),
        is_fingerprint(hash@),
{
    let mut hash = String::new();
    let mut i: usize = 0;
    while i < HASH_LENGTH
        invariant
            i <= HASH_LENGTH,
            digest@.len() == 16,
            hash@ == hex_text(digest@).take(i as int),
            forall|k: int| 0 <= k < i ==> is_hex_char(#[trigger] hash@[k]),
        decreases HASH_LENGTH - i,
    {
        let byte = digest[i / 2];
        let half = if i % 2 == 0 {
            byte / 16
        } else {
            byte % 16
        };
        hash.append(hex_str(half));
        proof {
            assert(hex_text(digest@)[i as int] == hex_digit(half as int));
            assert(hash@ =~= hex_text(digest@).take(i + 1));
        }
        i += 1;
    }
    hash
}

/// The fingerprint of a project's path.
pub fn generate_project_hash(path: &str) -> (hash: String)
    ensures
        hash@ == project_hash(path@),
        is_fingerprint(hash@),
{
    let digest = md5_compute(path.as_bytes());
    hash_fragment(&digest)
}

/// The name of a project: the one that its manifest declares, else the name
/// of its directory, else `unknown`. A manifest that is missing, unreadable or
/// malformed declares nothing.
pub fn get_project_name(project: &ProjectDir) -> (name: String)
    ensures
        name@ == project_name(*project),
{
    if let ManifestFile::Parsed(manifest) = &project.manifest {
        if let Some(package) = &manifest.package {
            if let Some(name) = &package.name {
                return name.clone();
            }
        }
    }
    match &project.dir_name {
        Some(dir_name) => dir_name.clone(),
        None => String::from_str(FALLBACK_NAME),
    }
}

/// Whether the directory holds a project: whether a manifest stands at its
/// root, readable or not.
pub fn is_rust_project(project: &ProjectDir) -> (held: bool)
    ensures
        held == !(project.manifest is Missing),
{
    match &project.manifest {
        ManifestFile::Missing => false,
        _ => true,
    }
}

impl ProjectIdentifier {
    /// The identity of the project in `project`. Nothing that is wrong with the
    /// manifest makes this fail.
    pub fn new(project: &ProjectDir) -> (id: ProjectIdentifier)
        ensures
            id@ == identity_of(*project),
            is_fingerprint(id@.hash),
    {
        let name = get_project_name(project);
        let hash = generate_project_hash(project.path.as_str());
        ProjectIdentifier { name, hash }
    }

    /// The project's name.
    pub fn name(&self) -> (name: &str)
        ensures
            name@ == self@.name,
    {
        self.name.as_str()
    }

    /// The name of the project's directory below the target root: the name, a
    /// hyphen and the fingerprint.
    pub fn identifier(&self) -> (text: String)
        ensures
            text@ == identifier_text(self@),
    {
        let mut text = self.name.clone();
        text.append("-");
        text.append(self.hash.as_str());
        text
    }
}

/// The fingerprint depends on the path alone, and the identifier on nothing
/// but the path, the directory's name and the declared name: two looks at one
/// path give the same fingerprint, and the same identifier where they agree
/// in the two names.
pub proof fn lemma_identifier_is_stable(first: ProjectDir, second: ProjectDir)
    requires
        first.path@ == second.path@,
    ensures
        identity_of(first).hash == identity_of(second).hash,
        project_name(first) == project_name(second) ==> identifier_text(identity_of(first))
            == identifier_text(identity_of(second)),
        declared_name(first.manifest) == declared_name(second.manifest) && first.dir_name
            == second.dir_name ==> project_name(first) == project_name(second),
{
}

/// Two projects of one name have the same identifier only if their
/// fingerprints agree: it is the fingerprint that tells them apart.
pub proof fn lemma_fingerprint_tells_apart(a: ProjectIdentifierView, b: ProjectIdentifierView)
    requires
        a.name == b.name,
    ensures
        identifier_text(a) == identifier_text(b) <==> a.hash == b.hash,
{
    if identifier_text(a) == identifier_text(b) {
        let prefix = a.name + "-"@;
        assert(identifier_text(a).subrange(prefix.len() as int, identifier_text(a).len() as int)
            =~= a.hash);
        assert(identifier_text(b).subrange(prefix.len() as int, identifier_text(b).len() as int)
            =~= b.hash);
    }
}

} // verus!
