//! Configuration for the general matching path and its validation.

use vstd::prelude::*;

use crate::token::Wildcard;

verus! {

/// The `Error` of the simplematch crate.
#[derive(Debug, Clone, Copy, PartialEq, Eq, PartialOrd, Ord)]
pub enum SimpleMatchError {
    /// A character in [`Options`](crate::Options) was assigned multiple times.
    DuplicateCharacterAssignment,
}

impl SimpleMatchError {
    /// A human-readable description of this error.
    pub fn message(&self) -> (r: String)
        ensures
            r@ == "Verifying options failed: The options contain a duplicate character assignment."@,
    {
        String::from_str(
            "Verifying options failed: The options contain a duplicate character assignment.",
        )
    }
}

/// Customize the matching behavior of the [`dowild_with`](crate::dowild_with) function.
#[derive(Debug, Copy, Clone, PartialEq, Eq, PartialOrd, Ord, Hash)]
#[non_exhaustive]
pub struct Options<T>
    where T: Wildcard,
 {
    /// If `true` the patterns are matched case-sensitive.
    ///
    /// The default is to match case-sensitive. Currently, only ascii
    /// characters are considered for case-insensitive matching.
    pub case_sensitive: bool,
    /// The token to negate a character class.
    ///
    /// The default is `!`.
    pub class_negate: T,
    /// Set to `true` to enable character classes `[...]`.
    ///
    /// The default is `false`.
    pub is_classes_enabled: bool,
    /// Set to `true` to enable escaping special characters in the pattern.
    ///
    /// The default is `false`.
    pub is_escape_enabled: bool,
    /// The token in the pattern to match zero or more occurrences of any
    /// character.
    ///
    /// The default token is `*`.
    pub wildcard_any: T,
    /// The token in the pattern to escape special characters.
    ///
    /// The default is the backslash character `\`.
    pub wildcard_escape: T,
    /// The token in the pattern to match exactly one occurrence of any
    /// character.
    ///
    /// The default token is `?`.
    pub wildcard_one: T,
}

/// The default configuration: case-sensitive, escape and classes disabled,
/// and the default special symbols of the alphabet `T`.
pub open spec fn spec_default_options<T: Wildcard>() -> Options<T> {
    Options {
        case_sensitive: true,
        wildcard_escape: T::sp_escape(),
        is_classes_enabled: false,
        class_negate: T::sp_class_negate(),
        wildcard_any: T::sp_any(),
        wildcard_one: T::sp_one(),
        is_escape_enabled: false,
    }
}

/// Two of the four special symbols coincide, so the configuration is
/// ambiguous.
pub open spec fn spec_has_duplicate<T: Wildcard>(o: Options<T>) -> bool {
    ||| o.wildcard_any == o.wildcard_one
    ||| o.wildcard_any == o.wildcard_escape
    ||| o.wildcard_any == o.class_negate
    ||| o.wildcard_one == o.wildcard_escape
    ||| o.wildcard_one == o.class_negate
    ||| o.wildcard_escape == o.class_negate
}

impl<T> Default for Options<T>
    where T: Wildcard,
 {
    fn default() -> (r: Self)
        ensures
            r == spec_default_options::<T>(),
    {
        Self::new()
    }
}

impl<T> Options<T>
    where T: Wildcard,
 {
    /// Create new `Options` for the [`dowild_with`](crate::dowild_with) function.
    pub fn new() -> (r: Self)
        ensures
            r == spec_default_options::<T>(),
    {
        Self {
            case_sensitive: true,
            wildcard_escape: T::default_escape(),
            is_classes_enabled: false,
            class_negate: T::default_class_negate(),
            wildcard_any: T::default_any(),
            wildcard_one: T::default_one(),
            is_escape_enabled: false,
        }
    }

    /// If `true` match the pattern case-insensitive.
    ///
    /// The default is to match case-sensitive.
    pub fn case_insensitive(self, yes: bool) -> (r: Self)
        ensures
            r == (Options { case_sensitive: !yes, ..self }),
    {
        let mut this = self;
        this.case_sensitive = !yes;
        this
    }

    /// If `true` enable escaping of special characters in the pattern.
    ///
    /// The default is `false` and the default escape character is backslash `\`.
    pub fn enable_escape(self, yes: bool) -> (r: Self)
        ensures
            r == (Options { is_escape_enabled: yes, ..self }),
    {
        let mut this = self;
        this.is_escape_enabled = yes;
        this
    }

    /// Enable escaping of special characters but use this `token` instead of
    /// the default.
    pub fn enable_escape_with(self, token: T) -> (r: Self)
        ensures
            r == (Options { is_escape_enabled: true, wildcard_escape: token, ..self }),
    {
        let mut this = self;
        this.is_escape_enabled = true;
        this.wildcard_escape = token;
        this
    }

    /// If `true`, enable character classes `[...]`.
    ///
    /// The default is `false`.
    pub fn enable_classes(self, yes: bool) -> (r: Self)
        ensures
            r == (Options { is_classes_enabled: yes, ..self }),
    {
        let mut this = self;
        this.is_classes_enabled = yes;
        this
    }

    /// Enable character classes `[...]` but use this `token` for the negation.
    ///
    /// The default negation character is the exclamation mark `!`.
    pub fn enable_classes_with(self, negation: T) -> (r: Self)
        ensures
            r == (Options { is_classes_enabled: true, class_negate: negation, ..self }),
    {
        let mut this = self;
        this.is_classes_enabled = true;
        this.class_negate = negation;
        this
    }

    /// Use this `token` instead of the default `*` to match any occurrences
    /// of a character.
    pub fn wildcard_any_with(self, token: T) -> (r: Self)
        ensures
            r == (Options { wildcard_any: token, ..self }),
    {
        let mut this = self;
        this.wildcard_any = token;
        this
    }

    /// Use this `token` instead of the default `?` to match exactly one
    /// character.
    pub fn wildcard_one_with(self, token: T) -> (r: Self)
        ensures
            r == (Options { wildcard_one: token, ..self }),
    {
        let mut this = self;
        this.wildcard_one = token;
        this
    }

    /// Check `Options` for configuration errors.
    ///
    /// An invalid configuration consists of duplicate character assignments.
    /// For example you can't use `*` for the escape character and the
    /// `wildcard_any` character simultaneously.
    ///
    /// # Errors
    ///
    /// Returns an error if these `Options` are invalid.
    pub fn verify(&self) -> (r: Result<(), SimpleMatchError>)
        ensures
            r.is_ok() <==> !spec_has_duplicate(*self),
            r.is_err() ==> r == Err::<(), SimpleMatchError>(
                SimpleMatchError::DuplicateCharacterAssignment,
            ),
    {
        if T::match_one_case_sensitive(self.wildcard_any, self.wildcard_one)
            || T::match_one_case_sensitive(self.wildcard_any, self.wildcard_escape)
            || T::match_one_case_sensitive(self.wildcard_any, self.class_negate)
            || T::match_one_case_sensitive(self.wildcard_one, self.wildcard_escape)
            || T::match_one_case_sensitive(self.wildcard_one, self.class_negate)
            || T::match_one_case_sensitive(self.wildcard_escape, self.class_negate) {
            return Err(SimpleMatchError::DuplicateCharacterAssignment);
        }
        Ok(())
    }

    /// A convenience method that consumes and returns these `Options` if the
    /// check succeeds.
    ///
    /// The only difference to [`verify`](Options::verify) is that this method
    /// consumes the [`Options`], returning them on success.
    ///
    /// # Errors
    ///
    /// Returns an error if these `Options` are invalid.
    pub fn verified(self) -> (r: Result<Self, SimpleMatchError>)
        ensures
            r.is_ok() <==> !spec_has_duplicate(self),
            r.is_ok() ==> r == Ok::<Self, SimpleMatchError>(self),
            r.is_err() ==> r == Err::<Self, SimpleMatchError>(
                SimpleMatchError::DuplicateCharacterAssignment,
            ),
    {
        match self.verify() {
            Ok(()) => Ok(self),
            Err(error) => Err(error),
        }
    }
}

} // verus!
