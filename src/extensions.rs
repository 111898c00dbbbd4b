//! What verification reads of an endorsement key certificate: the common
//! name of its subject, its extensions and its public key.
use vstd::prelude::*;

verus! {

/// One certificate extension: its object identifier in DER content
/// encoding (the bytes after tag and length), and its raw value.
#[derive(Clone, Debug)]
pub struct Extension {
    pub oid: Vec<u8>,
    pub value: Vec<u8>,
}

/// The parts of a certificate that verification reads.
#[derive(Clone, Debug)]
pub struct CertFields {
    /// The first common name of the subject, when it reads as a string.
    pub common_name: Option<String>,
    /// The extensions, in the order in which the certificate holds them.
    pub extensions: Vec<Extension>,
    /// The DER SubjectPublicKeyInfo.
    pub public_key: Vec<u8>,
}

/// The extensions as (identifier, value) pairs.
pub open spec fn ext_view(exts: Seq<Extension>) -> Seq<(Seq<u8>, Seq<u8>)> {
    exts.map_values(|e: Extension| (e.oid@, e.value@))
}

/// The common name as characters.
pub open spec fn name_view(common_name: Option<String>) -> Option<Seq<char>> {
    match common_name {
        Some(s) => Some(s@),
        None => None,
    }
}

impl CertFields {
    pub open spec fn view_tuple(&self) -> (Option<Seq<char>>, Seq<(Seq<u8>, Seq<u8>)>, Seq<u8>) {
        (name_view(self.common_name), ext_view(self.extensions@), self.public_key@)
    }
}

/// What x509-parser reads from the DER certificate `der`: the subject's
/// first common name, the extensions in order and the public key.
pub uninterp spec fn x509_fields(der: Seq<u8>) -> Option<
    (Option<Seq<char>>, Seq<(Seq<u8>, Seq<u8>)>, Seq<u8>),
>;

/// Relies on `x509_parser::parse_x509_certificate` to read the certificate,
/// and on `AttributeTypeAndValue::as_str` to read its common name.
#[verifier::external_body]
fn parse_x509(der: &[u8]) -> (r: Option<CertFields>)
    ensures
        match r {
            Some(c) => x509_fields(der@) == Some(c.view_tuple()),
            None => x509_fields(der@) is None,
        },
{
    let (_, x509) = x509_parser::parse_x509_certificate(der).ok()?;
    let common_name = match x509.subject().iter_common_name().next() {
        Some(cn) => cn.as_str().ok().map(String::from),
        None => None,
    };
    let extensions = x509.extensions().iter().map(
        |e| Extension { oid: e.oid.as_bytes().to_vec(), value: e.value.to_vec() },
    ).collect();
    Some(CertFields { common_name, extensions, public_key: x509.public_key().raw.to_vec() })
}

impl CertFields {
    /// Reads the parts that verification needs from a DER certificate;
    /// `None` when it cannot be read.
    pub fn from_der(der: &[u8]) -> (r: Option<CertFields>)
        ensures
            match r {
                Some(c) => x509_fields(der@) == Some(c.view_tuple()),
                None => x509_fields(der@) is None,
            },
    {
        parse_x509(der)
    }

    /// The value of the extension `oid`, if the certificate has one.
    pub fn extension(&self, oid: &[u8]) -> (r: Option<&Vec<u8>>)
        ensures
            match r {
                Some(v) => lookup(ext_view(self.extensions@), oid@) == Some(v@),
                None => lookup(ext_view(self.extensions@), oid@) is None,
            },
    {
        find_extension(&self.extensions, oid)
    }
}

/// The value of the first extension whose identifier is `oid`.
pub open spec fn lookup(exts: Seq<(Seq<u8>, Seq<u8>)>, oid: Seq<u8>) -> Option<Seq<u8>>
    decreases exts.len(),
{
    if exts.len() == 0 {
        None
    } else if exts[0].0 == oid {
        Some(exts[0].1)
    } else {
        lookup(exts.drop_first(), oid)
    }
}

/// No two extensions share an identifier.
pub open spec fn unique_oids(exts: Seq<(Seq<u8>, Seq<u8>)>) -> bool {
    forall|i: int, j: int| 0 <= i < j < exts.len() ==> exts[i].0 != exts[j].0
}

fn same_bytes(a: &Vec<u8>, b: &[u8]) -> (r: bool)
    ensures
        r == (a@ == b@),
{
    if a.len() != b.len() {
        return false;
    }
    let mut i: usize = 0;
    while i < b.len()
        invariant
            a@.len() == b@.len(),
            0 <= i <= b@.len(),
            forall|k: int| 0 <= k < i ==> a@[k] == b@[k],
        decreases b@.len() - i,
    {
        if a[i] != b[i] {
            return false;
        }
        i = i + 1;
    }
    assert(a@ =~= b@);
    true
}

/// The value of the first extension in `exts` whose identifier is `oid`.
pub fn find_extension<'a>(exts: &'a Vec<Extension>, oid: &[u8]) -> (r: Option<&'a Vec<u8>>)
    ensures
        match r {
            Some(v) => lookup(ext_view(exts@), oid@) == Some(v@),
            None => lookup(ext_view(exts@), oid@) is None,
        },
{
    let ghost all = ext_view(exts@);
    assert(all.subrange(0, all.len() as int) =~= all);
    let mut i: usize = 0;
    while i < exts.len()
        invariant
            all == ext_view(exts@),
            0 <= i <= exts@.len(),
            lookup(all, oid@) == lookup(all.subrange(i as int, all.len() as int), oid@),
        decreases exts@.len() - i,
    {
        let ghost rest = all.subrange(i as int, all.len() as int);
        assert(rest[0] == all[i as int]);
        if same_bytes(&exts[i].oid, oid) {
            return Some(&exts[i].value);
        }
        assert(rest.drop_first() =~= all.subrange(i + 1, all.len() as int));
        i = i + 1;
    }
    assert(all.subrange(i as int, all.len() as int).len() == 0);
    None
}

/// Whether no two extensions share an identifier.
pub fn has_unique_oids(exts: &Vec<Extension>) -> (r: bool)
    ensures
        r == unique_oids(ext_view(exts@)),
{
    let ghost all = ext_view(exts@);
    let mut j: usize = 0;
    while j < exts.len()
        invariant
            all == ext_view(exts@),
            0 <= j <= exts@.len(),
            forall|a: int, b: int| 0 <= a < b < j ==> all[a].0 != all[b].0,
        decreases exts@.len() - j,
    {
        let mut i: usize = 0;
        while i < j
            invariant
                all == ext_view(exts@),
                0 <= i <= j < exts@.len(),
                forall|a: int, b: int| 0 <= a < b < j ==> all[a].0 != all[b].0,
                forall|a: int| 0 <= a < i ==> all[a].0 != all[j as int].0,
            decreases j - i,
        {
            if same_bytes(&exts[i].oid, exts[j].oid.as_slice()) {
                assert(all[i as int].0 == all[j as int].0);
                return false;
            }
            i = i + 1;
        }
        j = j + 1;
    }
    true
}

} // verus!
