//! Which file of a certificate directory holds each certificate of the chain.
//!
//! A certificate named `cert` is stored as `cert.pem` or `cert.der`; the PEM
//! file is preferred when both are there.
use vstd::prelude::*;

verus! {

/// The two families of endorsement keys, each with its own signing key.
#[derive(Clone, Copy, Debug, PartialEq, Eq, Structural)]
pub enum VekFamily {
    /// A VCEK, signed by the ASK.
    Vcek,
    /// A VLEK, signed by the ASVK.
    Vlek,
}

/// A certificate that the directory does not hold under either extension.
#[derive(Clone, Debug)]
pub struct NotFound {
    /// The name of the missing certificate, without extension.
    pub cert: String,
}

/// The files that hold the root, the signing key and the endorsement key.
#[derive(Clone, Debug)]
pub struct ChainPaths {
    pub ark: String,
    pub signer: String,
    pub vek: String,
    pub family: VekFamily,
}

/// The names of the directory's entries.
pub open spec fn names(entries: Seq<String>) -> Seq<Seq<char>> {
    entries.map_values(|e: String| e@)
}

pub open spec fn pem_file(cert: Seq<char>) -> Seq<char> {
    cert + seq!['.', 'p', 'e', 'm']
}

pub open spec fn der_file(cert: Seq<char>) -> Seq<char> {
    cert + seq!['.', 'd', 'e', 'r']
}

/// The file that holds the certificate `cert`, if the directory has one.
pub open spec fn located(entries: Seq<String>, cert: Seq<char>) -> Option<Seq<char>> {
    if names(entries).contains(pem_file(cert)) {
        Some(pem_file(cert))
    } else if names(entries).contains(der_file(cert)) {
        Some(der_file(cert))
    } else {
        None
    }
}

pub open spec fn ark_name() -> Seq<char> {
    seq!['a', 'r', 'k']
}

pub open spec fn ask_name() -> Seq<char> {
    seq!['a', 's', 'k']
}

pub open spec fn asvk_name() -> Seq<char> {
    seq!['a', 's', 'v', 'k']
}

pub open spec fn vcek_name() -> Seq<char> {
    seq!['v', 'c', 'e', 'k']
}

pub open spec fn vlek_name() -> Seq<char> {
    seq!['v', 'l', 'e', 'k']
}

/// The endorsement key to use: a VLEK when the directory holds one, else a VCEK.
pub open spec fn vek_choice(entries: Seq<String>) -> Option<(Seq<char>, VekFamily)> {
    match located(entries, vlek_name()) {
        Some(f) => Some((f, VekFamily::Vlek)),
        None => match located(entries, vcek_name()) {
            Some(f) => Some((f, VekFamily::Vcek)),
            None => None,
        },
    }
}

/// The files of the chain: the root, then a VLEK with the ASVK that signs it,
/// or else a VCEK with the ASK; `Err` names the first certificate missing.
pub open spec fn chain_choice(entries: Seq<String>) -> Result<
    (Seq<char>, Seq<char>, Seq<char>, VekFamily),
    Seq<char>,
> {
    match located(entries, ark_name()) {
        None => Err(ark_name()),
        Some(ark) => match located(entries, vlek_name()) {
            Some(vek) => match located(entries, asvk_name()) {
                Some(signer) => Ok((ark, signer, vek, VekFamily::Vlek)),
                None => Err(asvk_name()),
            },
            None => match located(entries, vcek_name()) {
                None => Err(vcek_name()),
                Some(vek) => match located(entries, ask_name()) {
                    Some(signer) => Ok((ark, signer, vek, VekFamily::Vcek)),
                    None => Err(ask_name()),
                },
            },
        },
    }
}

fn has_entry(entries: &Vec<String>, name: &String) -> (r: bool)
    ensures
        r == names(entries@).contains(name@),
{
    let mut i: usize = 0;
    while i < entries.len()
        invariant
            0 <= i <= entries@.len(),
            forall|k: int| 0 <= k < i ==> entries@[k]@ != name@,
        decreases entries@.len() - i,
    {
        if entries[i] == *name {
            assert(names(entries@)[i as int] == name@);
            return true;
        }
        i = i + 1;
    }
    assert forall|k: int| 0 <= k < names(entries@).len() implies names(entries@)[k] != name@ by {
        assert(entries@[k]@ != name@);
    }
    false
}

/// The file among `entries` that holds the certificate `cert`: `cert.pem` if
/// it is there, else `cert.der`.
pub fn find_cert_in_dir(entries: &Vec<String>, cert: &str) -> (r: Result<String, NotFound>)
    ensures
        match r {
            Ok(f) => located(entries@, cert@) == Some(f@),
            Err(e) => located(entries@, cert@) is None && e.cert@ == cert@,
        },
{
    proof {
        reveal_strlit(".pem");
        reveal_strlit(".der");
    }
    let pem = String::from_str(cert).concat(".pem");
    assert(pem@ =~= pem_file(cert@));
    if has_entry(entries, &pem) {
        return Ok(pem);
    }
    let der = String::from_str(cert).concat(".der");
    assert(der@ =~= der_file(cert@));
    if has_entry(entries, &der) {
        Ok(der)
    } else {
        Err(NotFound { cert: String::from_str(cert) })
    }
}

/// The endorsement key's file and family: a VLEK is preferred to a VCEK.
pub fn find_vek(entries: &Vec<String>) -> (r: Result<(String, VekFamily), NotFound>)
    ensures
        match r {
            Ok((f, family)) => vek_choice(entries@) == Some((f@, family)),
            Err(e) => vek_choice(entries@) is None && e.cert@ == vcek_name(),
        },
{
    proof {
        reveal_strlit("vlek");
        reveal_strlit("vcek");
        assert("vlek"@ =~= vlek_name());
        assert("vcek"@ =~= vcek_name());
    }
    match find_cert_in_dir(entries, "vlek") {
        Ok(f) => Ok((f, VekFamily::Vlek)),
        Err(_) => match find_cert_in_dir(entries, "vcek") {
            Ok(f) => Ok((f, VekFamily::Vcek)),
            Err(e) => Err(e),
        },
    }
}

/// The files of the whole chain. The VLEK family is taken when the directory
/// holds a VLEK; its ASVK must then be there too.
pub fn resolve_chain_paths(entries: &Vec<String>) -> (r: Result<ChainPaths, NotFound>)
    ensures
        match r {
            Ok(p) => chain_choice(entries@) == Ok::<_, Seq<char>>(
                (p.ark@, p.signer@, p.vek@, p.family),
            ),
            Err(e) => chain_choice(entries@) == Err::<(Seq<char>, Seq<char>, Seq<char>, VekFamily), _>(
                e.cert@,
            ),
        },
{
    proof {
        reveal_strlit("ark");
        reveal_strlit("ask");
        reveal_strlit("asvk");
        reveal_strlit("vlek");
        reveal_strlit("vcek");
        assert("ark"@ =~= ark_name());
        assert("ask"@ =~= ask_name());
        assert("asvk"@ =~= asvk_name());
        assert("vlek"@ =~= vlek_name());
        assert("vcek"@ =~= vcek_name());
    }
    let ark = match find_cert_in_dir(entries, "ark") {
        Ok(f) => f,
        Err(e) => return Err(e),
    };
    match find_cert_in_dir(entries, "vlek") {
        Ok(vek) => match find_cert_in_dir(entries, "asvk") {
            Ok(signer) => Ok(ChainPaths { ark, signer, vek, family: VekFamily::Vlek }),
            Err(e) => Err(e),
        },
        Err(_) => match find_cert_in_dir(entries, "vcek") {
            Err(e) => Err(e),
            Ok(vek) => match find_cert_in_dir(entries, "ask") {
                Ok(signer) => Ok(ChainPaths { ark, signer, vek, family: VekFamily::Vcek }),
                Err(e) => Err(e),
            },
        },
    }
}

} // verus!
