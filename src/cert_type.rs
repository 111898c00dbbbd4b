//! The role of a certificate, read from the common name of its subject.
use vstd::prelude::*;

verus! {

/// The roles that a certificate of the chain can have.
#[derive(Clone, Copy, Debug, PartialEq, Eq, Structural)]
pub enum CertType {
    /// The self-signed root key.
    ARK,
    /// An intermediate signing key (ASK, or ASVK for the VLEK family).
    ASK,
    /// A chip endorsement key.
    VCEK,
    /// A loaded endorsement key.
    VLEK,
    /// A certificate revocation list.
    CRL,
}

/// Why a certificate's role could not be told.
#[derive(Clone, Copy, Debug, PartialEq, Eq, Structural)]
pub enum CertTypeError {
    /// The subject has no common name that reads as a string.
    MissingCommonName,
    /// The common name names none of the known roles.
    Unknown,
}

/// What `str::to_lowercase` gives for `s`.
pub uninterp spec fn lower_of(s: Seq<char>) -> Seq<char>;

/// Relies on `str::to_lowercase`: its result depends on the characters alone.
#[verifier::external_body]
fn lowercase(s: &str) -> (r: String)
    ensures
        r@ == lower_of(s@),
{
    s.to_lowercase()
}

/// Whether `needle` occurs in `hay` as a run of consecutive characters.
pub open spec fn contains(hay: Seq<char>, needle: Seq<char>) -> bool {
    exists|i: int|
        0 <= i && i + needle.len() <= hay.len() && #[trigger] hay.subrange(i, i + needle.len())
            == needle
}

pub open spec fn ark_token() -> Seq<char> {
    seq!['a', 'r', 'k']
}

pub open spec fn ask_token() -> Seq<char> {
    seq!['a', 's', 'k']
}

pub open spec fn sev_token() -> Seq<char> {
    seq!['s', 'e', 'v']
}

pub open spec fn vcek_token() -> Seq<char> {
    seq!['v', 'c', 'e', 'k']
}

pub open spec fn vlek_token() -> Seq<char> {
    seq!['v', 'l', 'e', 'k']
}

pub open spec fn crl_token() -> Seq<char> {
    seq!['c', 'r', 'l']
}

/// The role that a lower-case common name stands for, the most specific
/// first: the first of "ark", "vcek", "vlek", "ask" or "sev", "crl" that it
/// contains decides (so "sev-vcek" is a VCEK).
pub open spec fn cert_type_of(name: Seq<char>) -> Result<CertType, CertTypeError> {
    if contains(name, ark_token()) {
        Ok(CertType::ARK)
    } else if contains(name, vcek_token()) {
        Ok(CertType::VCEK)
    } else if contains(name, vlek_token()) {
        Ok(CertType::VLEK)
    } else if contains(name, ask_token()) || contains(name, sev_token()) {
        Ok(CertType::ASK)
    } else if contains(name, crl_token()) {
        Ok(CertType::CRL)
    } else {
        Err(CertTypeError::Unknown)
    }
}

/// The role of a certificate whose subject has the common name `common_name`.
pub open spec fn common_name_type(common_name: Option<Seq<char>>) -> Result<
    CertType,
    CertTypeError,
> {
    match common_name {
        None => Err(CertTypeError::MissingCommonName),
        Some(name) => cert_type_of(lower_of(name)),
    }
}

fn chars_of(s: &str) -> (r: Vec<char>)
    ensures
        r@ == s@,
{
    let n = s.unicode_len();
    let mut r: Vec<char> = Vec::new();
    let mut i: usize = 0;
    while i < n
        invariant
            n == s@.len(),
            0 <= i <= n,
            r@ == s@.subrange(0, i as int),
        decreases n - i,
    {
        r.push(s.get_char(i));
        i = i + 1;
        assert(r@ =~= s@.subrange(0, i as int));
    }
    assert(r@ =~= s@);
    r
}

fn matches_at(hay: &Vec<char>, start: usize, needle: &Vec<char>) -> (r: bool)
    requires
        start + needle@.len() <= hay@.len(),
    ensures
        r == (hay@.subrange(start as int, start + needle@.len()) == needle@),
{
    let hay_len = hay.len();
    let mut j: usize = 0;
    while j < needle.len()
        invariant
            hay_len == hay@.len(),
            start + needle@.len() <= hay@.len(),
            0 <= j <= needle@.len(),
            forall|k: int| 0 <= k < j ==> hay@[start + k] == needle@[k],
        decreases needle@.len() - j,
    {
        if hay[start + j] != needle[j] {
            assert(hay@.subrange(start as int, start + needle@.len())[j as int] != needle@[j as int]);
            return false;
        }
        j = j + 1;
    }
    assert(hay@.subrange(start as int, start + needle@.len()) =~= needle@);
    true
}

fn contains_chars(hay: &Vec<char>, needle: &Vec<char>) -> (r: bool)
    ensures
        r == contains(hay@, needle@),
{
    if needle.len() > hay.len() {
        return false;
    }
    let last = hay.len() - needle.len();
    let mut i: usize = 0;
    while i < last
        invariant
            last + needle@.len() == hay@.len(),
            0 <= i <= last,
            forall|k: int|
                0 <= k < i ==> #[trigger] hay@.subrange(k, k + needle@.len()) != needle@,
        decreases last - i,
    {
        if matches_at(hay, i, needle) {
            return true;
        }
        i = i + 1;
    }
    matches_at(hay, last, needle)
}

/// The role that the lower-case common name `name` stands for.
pub fn classify_common_name(name: &str) -> (r: Result<CertType, CertTypeError>)
    ensures
        r == cert_type_of(name@),
{
    proof {
        reveal_strlit("ark");
        reveal_strlit("ask");
        reveal_strlit("sev");
        reveal_strlit("vcek");
        reveal_strlit("vlek");
        reveal_strlit("crl");
        assert("ark"@ =~= ark_token());
        assert("ask"@ =~= ask_token());
        assert("sev"@ =~= sev_token());
        assert("vcek"@ =~= vcek_token());
        assert("vlek"@ =~= vlek_token());
        assert("crl"@ =~= crl_token());
    }
    let hay = chars_of(name);
    if contains_chars(&hay, &chars_of("ark")) {
        Ok(CertType::ARK)
    } else if contains_chars(&hay, &chars_of("vcek")) {
        Ok(CertType::VCEK)
    } else if contains_chars(&hay, &chars_of("vlek")) {
        Ok(CertType::VLEK)
    } else if contains_chars(&hay, &chars_of("ask")) || contains_chars(&hay, &chars_of("sev")) {
        Ok(CertType::ASK)
    } else if contains_chars(&hay, &chars_of("crl")) {
        Ok(CertType::CRL)
    } else {
        Err(CertTypeError::Unknown)
    }
}

/// The role of a certificate whose subject has the common name
/// `common_name`, compared without regard to case.
pub fn parse_common_name(common_name: &Option<String>) -> (r: Result<CertType, CertTypeError>)
    ensures
        r == common_name_type(
            match common_name {
                Some(s) => Some(s@),
                None => None,
            },
        ),
{
    match common_name {
        None => Err(CertTypeError::MissingCommonName),
        Some(name) => {
            let lower = lowercase(name.as_str());
            classify_common_name(lower.as_str())
        },
    }
}

} // verus!
