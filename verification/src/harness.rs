//! Plain configuration records for randomized cross-checking harnesses.
//!
//! [`PatternOptions`] mirrors [`Options`] over concrete `u8` symbols with
//! each special symbol optional, which is the shape a fuzzing or
//! benchmarking driver finds easiest to generate. [`FuzzOptions`] is the
//! coarser toggle set such a driver draws first.

use vstd::prelude::*;

use crate::options::Options;
use crate::token::BACKSLASH;
use crate::token::BANG;
use crate::token::QUESTION;
use crate::token::STAR;

verus! {

/// The `PatternOptions` mimic the [`Options`] of the matcher.
///
/// The main reason for having a separate struct is to keep the harness on
/// plain `u8` symbols: the [`Options`] of the matcher are generic.
#[derive(Debug, Clone, Copy)]
pub struct PatternOptions {
    pub case_sensitive: bool,
    pub is_escape_enabled: bool,
    pub is_ranges_enabled: bool,
    pub range_negate: Option<u8>,
    pub wildcard_any: Option<u8>,
    pub wildcard_escape: Option<u8>,
    pub wildcard_one: Option<u8>,
}

/// The default harness configuration, agreeing with the default [`Options`].
pub open spec fn spec_default_pattern_options() -> PatternOptions {
    PatternOptions {
        case_sensitive: true,
        is_escape_enabled: false,
        is_ranges_enabled: false,
        range_negate: Some(BANG),
        wildcard_any: Some(STAR),
        wildcard_escape: Some(BACKSLASH),
        wildcard_one: Some(QUESTION),
    }
}

/// The matcher options a harness configuration stands for: absent symbols
/// fall back to the defaults.
pub open spec fn spec_options_of_pattern(value: PatternOptions) -> Options<u8> {
    Options {
        case_sensitive: value.case_sensitive,
        wildcard_escape: if value.wildcard_escape is Some {
            value.wildcard_escape->Some_0
        } else {
            BACKSLASH
        },
        is_classes_enabled: value.is_ranges_enabled,
        class_negate: if value.range_negate is Some {
            value.range_negate->Some_0
        } else {
            BANG
        },
        wildcard_any: if value.wildcard_any is Some {
            value.wildcard_any->Some_0
        } else {
            STAR
        },
        wildcard_one: if value.wildcard_one is Some {
            value.wildcard_one->Some_0
        } else {
            QUESTION
        },
        is_escape_enabled: value.is_escape_enabled,
    }
}

impl Default for PatternOptions {
    fn default() -> (r: Self)
        ensures
            r == spec_default_pattern_options(),
    {
        Self {
            case_sensitive: true,
            is_escape_enabled: false,
            is_ranges_enabled: false,
            range_negate: Some(BANG),
            wildcard_any: Some(STAR),
            wildcard_escape: Some(BACKSLASH),
            wildcard_one: Some(QUESTION),
        }
    }
}

impl From<PatternOptions> for Options<u8> {
    fn from(value: PatternOptions) -> (r: Self) {
        let mut this = Self::new();
        this.case_sensitive = value.case_sensitive;
        this.wildcard_escape = match value.wildcard_escape {
            Some(token) => token,
            None => BACKSLASH,
        };
        this.is_classes_enabled = value.is_ranges_enabled;
        this.class_negate = match value.range_negate {
            Some(token) => token,
            None => BANG,
        };
        this.wildcard_any = match value.wildcard_any {
            Some(token) => token,
            None => STAR,
        };
        this.wildcard_one = match value.wildcard_one {
            Some(token) => token,
            None => QUESTION,
        };
        this.is_escape_enabled = value.is_escape_enabled;
        this
    }
}

impl vstd::std_specs::convert::FromSpecImpl<PatternOptions> for Options<u8> {
    open spec fn obeys_from_spec() -> bool {
        true
    }

    open spec fn from_spec(value: PatternOptions) -> Self {
        spec_options_of_pattern(value)
    }
}

/// The coarse feature toggles a randomized cross-checking driver draws
/// before it fills in a [`PatternOptions`].
#[derive(Debug, Clone, Copy)]
pub struct FuzzOptions {
    pub use_ranges: bool,
    pub use_other_negate: bool,
    pub use_other_wildcard_any: bool,
    pub use_other_wildcard_one: bool,
    pub case_sensitive: bool,
    pub enable_escape: bool,
    pub use_other_wildcard_escape: bool,
}

} // verus!
