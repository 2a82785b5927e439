use vstd::prelude::*;

verus! {

/// Whether tilde expansion may rewrite the path: a leading `~` that is the
/// whole string or is followed by `/`. A `~user` form is never rewritten.
pub open spec fn tilde_expandable(s: Seq<char>) -> bool {
    s.len() > 0 && s[0] == '~' && (s.len() == 1 || s[1] == '/')
}

/// Relies on shellexpand::tilde: only a leading `~`, alone or before `/`, is
/// replaced — by the home directory, in front of the rest of the input — and
/// any other input, or a missing home directory, comes back unchanged. The
/// home directory is the host environment's, so which of the two shapes an
/// expandable input takes is not fixed here.
#[verifier::external_body]
fn tilde_expand(path: &str) -> (expanded: String)
    ensures
        !tilde_expandable(path@) ==> expanded@ == path@,
        tilde_expandable(path@) ==> expanded@ == path@ || (expanded@.len() >= path@.len() - 1
            && expanded@.skip(expanded@.len() - (path@.len() - 1)) == path@.skip(1)),
{
    shellexpand::tilde(path).into_owned()
}

/// Resolve a configured credentials-file path for the session inspector: a
/// leading tilde is expanded to the host user's home directory; every other
/// path passes through untouched.
pub fn resolve_credentials_path(configured: &str) -> (path: String)
    ensures
        !tilde_expandable(configured@) ==> path@ == configured@,
        tilde_expandable(configured@) ==> path@ == configured@ || (path@.len() >= configured@.len()
            - 1 && path@.skip(path@.len() - (configured@.len() - 1)) == configured@.skip(1)),
{
    tilde_expand(configured)
}

} // verus!
