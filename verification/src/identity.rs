//! The 64-bit identity under which pages and resources are stored.

use std::collections::hash_map::DefaultHasher;
use std::hash::Hasher;
use vstd::prelude::*;
use vstd::std_specs::hash::DefaultHasherAdditionalSpecFns;
use vstd::string::StringSliceAdditionalSpecFns;
use vstd::utf8::encode_utf8;

verus! {

/// The byte that closes each string fed to the hasher. It occurs in no
/// UTF-8 text, so the pair `("ab", "c")` is fed differently from
/// `("a", "bc")`.
pub const TERMINATOR: u8 = 0xff;

/// What is fed to the hasher for a pair: the URL, then the base, each as
/// its UTF-8 bytes followed by the terminator.
pub open spec fn hashed_input(base: Seq<char>, url: Seq<char>) -> Seq<Seq<u8>> {
    seq![encode_utf8(url), seq![TERMINATOR], encode_utf8(base), seq![TERMINATOR]]
}

/// The identity of an absolute URL discovered from a base: the default
/// hasher's digest of the pair. It depends on the base string as given,
/// so one URL reached from two bases has two identities.
pub open spec fn identity(base: Seq<char>, url: Seq<char>) -> u64 {
    DefaultHasher::spec_finish(hashed_input(base, url))
}

/// Computes the identity of `url_name` as discovered from `hostname`.
pub fn hash_host_and_url(hostname: &str, url_name: &str) -> (id: u64)
    ensures
        id == identity(hostname@, url_name@),
{
    let terminator: [u8; 1] = [TERMINATOR];
    let mut hasher = DefaultHasher::new();
    hasher.write(url_name.as_bytes());
    hasher.write(terminator.as_slice());
    hasher.write(hostname.as_bytes());
    hasher.write(terminator.as_slice());
    proof {
        assert(terminator@ =~= seq![TERMINATOR]);
        assert(hasher@ =~= hashed_input(hostname@, url_name@));
    }
    hasher.finish()
}

} // verus!
