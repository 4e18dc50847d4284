use vstd::prelude::*;

use crate::version::Version;

verus! {

/// Declares the inclusive version range under which a payload type's current
/// in-memory representation is a faithful match for the wire encoding.
///
/// A payload type implements this trait to opt into the range-checked
/// serializer operations; a type with no declared range is only usable
/// through the operations that do not consult a range. The declared range
/// must be non-empty: `min_version() <= max_version()` under the version
/// order.
pub trait Versioned {
    /// The lower end of the declared compatibility range.
    spec fn spec_min_version() -> Version;

    /// The upper end of the declared compatibility range.
    spec fn spec_max_version() -> Version;

    /// The lower end of the declared compatibility range.
    fn min_version() -> (r: Version)
        ensures
            r == Self::spec_min_version(),
    ;

    /// The upper end of the declared compatibility range.
    fn max_version() -> (r: Version)
        ensures
            r == Self::spec_max_version(),
    ;

    /// The declared range must be non-empty: an implementer discharges this
    /// obligation when the type is declared, so an inverted range is a
    /// mistake caught at that point rather than at a call site.
    proof fn range_well_formed()
        ensures
            Self::spec_min_version().spec_le(Self::spec_max_version()),
    ;
}

} // verus!
