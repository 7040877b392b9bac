//! The decorator parser: a small keyword vocabulary attached to a group's
//! implicit selection clause or to a field's membership entry.

use vstd::prelude::*;

use crate::errors::ConfigError;
use crate::errors::ErrorModel;
use crate::types::string_views;

verus! {

/// The requested value transform of a group member.
#[derive(Clone, Copy, PartialEq, Eq, Debug)]
pub enum CastKind {
    /// A safe numeric conversion to the group's element type.
    SafeCast,
    /// An unsafe bit-reinterpretation to the group's element type.
    UnsafeTransmute,
}

/// The flag set carried by one decorator annotation: at most one cast kind,
/// and the right to override an implicit member.
#[derive(Clone, Copy, Debug)]
pub struct Decorator {
    pub override_implicit: bool,
    pub cast: Option<CastKind>,
}

/// One step of decorator parsing: fold the next token into the flag set.
///
/// The vocabulary has exactly three keywords.  A cast keyword after a cast
/// kind was already chosen is a conflict; a repeated override flag and any
/// unknown token are unrecognized.
pub open spec fn spec_decorator_step(d: Decorator, token: Seq<char>) -> Result<
    Decorator,
    ErrorModel,
> {
    if token == "override_implicit"@ {
        if !d.override_implicit {
            Ok(Decorator { override_implicit: true, cast: d.cast })
        } else {
            Err(ErrorModel::UnrecognizedDecorator { token: token })
        }
    } else if token == "cast"@ {
        if d.cast is None {
            Ok(Decorator { override_implicit: d.override_implicit, cast: Some(CastKind::SafeCast) })
        } else {
            Err(ErrorModel::ConflictingCastDecorators { token: token })
        }
    } else if token == "unsafe_transmute"@ {
        if d.cast is None {
            Ok(
                Decorator {
                    override_implicit: d.override_implicit,
                    cast: Some(CastKind::UnsafeTransmute),
                },
            )
        } else {
            Err(ErrorModel::ConflictingCastDecorators { token: token })
        }
    } else {
        Err(ErrorModel::UnrecognizedDecorator { token: token })
    }
}

/// Fold [`spec_decorator_step`] over the remaining tokens.
pub open spec fn spec_parse_decorator_from(d: Decorator, tokens: Seq<Seq<char>>) -> Result<
    Decorator,
    ErrorModel,
>
    decreases tokens.len(),
{
    if tokens.len() == 0 {
        Ok(d)
    } else {
        match spec_decorator_step(d, tokens[0]) {
            Ok(d2) => spec_parse_decorator_from(d2, tokens.drop_first()),
            Err(e) => Err(e),
        }
    }
}

/// What parsing a whole token list yields, starting from the default flag
/// set: no tokens give the default decorator, and the first offending token
/// decides the error.
pub open spec fn spec_parse_decorator(tokens: Seq<Seq<char>>) -> Result<Decorator, ErrorModel> {
    spec_parse_decorator_from(Decorator { override_implicit: false, cast: None }, tokens)
}

impl Decorator {
    /// The default flag set: no cast and no override.
    pub fn new() -> (d: Decorator)
        ensures
            !d.override_implicit,
            d.cast is None,
    {
        Decorator { override_implicit: false, cast: None }
    }

    /// Parse a decorator annotation's keyword list.
    #[verifier::loop_isolation(false)]
    pub fn parse(tokens: &Vec<String>) -> (r: Result<Decorator, ConfigError>)
        ensures
            match r {
                Ok(d) => spec_parse_decorator(string_views(tokens@)) == Ok::<
                    Decorator,
                    ErrorModel,
                >(d),
                Err(e) => spec_parse_decorator(string_views(tokens@)) == Err::<
                    Decorator,
                    ErrorModel,
                >(e@),
            },
    {
        let override_kw: String = "override_implicit".to_owned();
        let cast_kw: String = "cast".to_owned();
        let transmute_kw: String = "unsafe_transmute".to_owned();
        let mut d = Decorator::new();
        let mut i: usize = 0;
        proof {
            assert(string_views(tokens@).skip(0) =~= string_views(tokens@));
        }
        while i < tokens.len()
            invariant
                i <= tokens@.len(),
                spec_parse_decorator_from(d, string_views(tokens@).skip(i as int))
                    == spec_parse_decorator(string_views(tokens@)),
            decreases tokens@.len() - i,
        {
            proof {
                assert(string_views(tokens@).skip(i as int)[0] == tokens@[i as int]@);
                assert(string_views(tokens@).skip(i as int).drop_first() =~= string_views(
                    tokens@,
                ).skip(i as int + 1));
            }
            let token = &tokens[i];
            if *token == override_kw {
                if !d.override_implicit {
                    d.override_implicit = true;
                } else {
                    return Err(ConfigError::UnrecognizedDecorator { token: token.clone() });
                }
            } else if *token == cast_kw {
                if d.cast.is_none() {
                    d.cast = Some(CastKind::SafeCast);
                } else {
                    return Err(ConfigError::ConflictingCastDecorators { token: token.clone() });
                }
            } else if *token == transmute_kw {
                if d.cast.is_none() {
                    d.cast = Some(CastKind::UnsafeTransmute);
                } else {
                    return Err(ConfigError::ConflictingCastDecorators { token: token.clone() });
                }
            } else {
                return Err(ConfigError::UnrecognizedDecorator { token: token.clone() });
            }
            i = i + 1;
        }
        proof {
            assert(string_views(tokens@).skip(i as int) =~= Seq::<Seq<char>>::empty());
        }
        Ok(d)
    }
}

} // verus!
