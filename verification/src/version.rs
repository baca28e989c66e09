use vstd::prelude::*;

verus! {

/// The crate's version.
pub const VERSION: &'static str = "0.1.0";

/// The revision this crate was built from, when known; all zeroes
/// otherwise.
pub const GIT_HASH: &'static str = "0000000000000000000000000000000000000000";

/// When this crate was built, when known.
pub const BUILD_TIMESTAMP: &'static str = "unknown";

/// The bare version, as shown in a one-line banner.
pub fn short_version() -> (r: &'static str)
    ensures
        r@ == VERSION@,
{
    VERSION
}

/// The long banner: the version followed by the revision and build time
/// in parentheses.
pub fn long_version() -> (r: &'static str)
    ensures
        r@ == VERSION@ + " ("@ + GIT_HASH@ + ", "@ + BUILD_TIMESTAMP@ + ")"@,
{
    let banner = "0.1.0 (0000000000000000000000000000000000000000, unknown)";
    proof {
        reveal_strlit("0.1.0");
        reveal_strlit(" (");
        reveal_strlit("0000000000000000000000000000000000000000");
        reveal_strlit(", ");
        reveal_strlit("unknown");
        reveal_strlit(")");
        reveal_strlit("0.1.0 (0000000000000000000000000000000000000000, unknown)");
        assert(banner@ =~= VERSION@ + " ("@ + GIT_HASH@ + ", "@ + BUILD_TIMESTAMP@ + ")"@);
    }
    banner
}

} // verus!
