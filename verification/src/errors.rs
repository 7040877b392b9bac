//! The configuration errors and advisories that registry building, decorator
//! parsing and selection resolution can report.

use vstd::prelude::*;
use vstd::string::StringExecFns;

use crate::types::TypeExpr;
use crate::types::TypeModel;

verus! {

/// A configuration error, detected while building the group registry, while
/// parsing a decorator or while resolving field memberships.
///
/// Every error names the offending identifiers, so a caller can render a
/// message for each category.
pub enum ConfigError {
    /// Two group declarations share one name.
    DuplicateGroupName { group: String },
    /// Two implicit selection patterns of one group unify with each other;
    /// `pattern` is the first colliding pattern, in declaration order.
    DuplicateImplicitPattern { group: String, pattern: TypeExpr },
    /// An implicit selection clause was written without any pattern type.
    MissingPatternType { group: String },
    /// A group's own implicit selection decorator carries the
    /// override-implicit flag, which only makes sense on a field entry.
    ForbiddenDecoratorOnImplicitClause { group: String },
    /// A decorator token is not part of the vocabulary, or repeats a flag
    /// that was already set.
    UnrecognizedDecorator { token: String },
    /// A second cast request was seen after a cast kind was already chosen.
    ConflictingCastDecorators { token: String },
    /// A field entry names a group that was never declared.
    UnknownGroup { group: String, field: String },
    /// A field is listed again for a group that already holds it, without an
    /// override of an implicit member.
    DuplicateFieldInGroup { group: String, field: String },
}

/// The mathematical model of a [`ConfigError`].
pub enum ErrorModel {
    DuplicateGroupName { group: Seq<char> },
    DuplicateImplicitPattern { group: Seq<char>, pattern: TypeModel },
    MissingPatternType { group: Seq<char> },
    ForbiddenDecoratorOnImplicitClause { group: Seq<char> },
    UnrecognizedDecorator { token: Seq<char> },
    ConflictingCastDecorators { token: Seq<char> },
    UnknownGroup { group: Seq<char>, field: Seq<char> },
    DuplicateFieldInGroup { group: Seq<char>, field: Seq<char> },
}

impl View for ConfigError {
    type V = ErrorModel;

    open spec fn view(&self) -> ErrorModel {
        match self {
            ConfigError::DuplicateGroupName { group } => ErrorModel::DuplicateGroupName {
                group: group@,
            },
            ConfigError::DuplicateImplicitPattern { group, pattern } => {
                ErrorModel::DuplicateImplicitPattern { group: group@, pattern: pattern@ }
            },
            ConfigError::MissingPatternType { group } => ErrorModel::MissingPatternType {
                group: group@,
            },
            ConfigError::ForbiddenDecoratorOnImplicitClause { group } => {
                ErrorModel::ForbiddenDecoratorOnImplicitClause { group: group@ }
            },
            ConfigError::UnrecognizedDecorator { token } => ErrorModel::UnrecognizedDecorator {
                token: token@,
            },
            ConfigError::ConflictingCastDecorators { token } => {
                ErrorModel::ConflictingCastDecorators { token: token@ }
            },
            ConfigError::UnknownGroup { group, field } => ErrorModel::UnknownGroup {
                group: group@,
                field: field@,
            },
            ConfigError::DuplicateFieldInGroup { group, field } => {
                ErrorModel::DuplicateFieldInGroup { group: group@, field: field@ }
            },
        }
    }
}

/// The views of a list of errors, in order.
pub open spec fn error_models(es: Seq<ConfigError>) -> Seq<ErrorModel> {
    es.map_values(|e: ConfigError| e@)
}

/// The message template of each error category, with the offending
/// identifiers filled in.  A colliding pattern is named by the error's own
/// payload; the template only points at the clause.
pub open spec fn spec_message(e: ErrorModel) -> Seq<char> {
    match e {
        ErrorModel::DuplicateGroupName { group } => "gen_array method '"@ + group
            + "' is declared more than once"@,
        ErrorModel::DuplicateImplicitPattern { group, .. } => "gen_array method '"@ + group
            + "' contains an implicit_select_all clause with a duplicated pattern type"@,
        ErrorModel::MissingPatternType { group } => "gen_array method '"@ + group
            + "' has an implicit_select_all clause with no type to select"@,
        ErrorModel::ForbiddenDecoratorOnImplicitClause { group } => "gen_array method '"@ + group
            + "' contains an implicit_select_all clause with forbidden decorator 'override_implicit'"@,
        ErrorModel::UnrecognizedDecorator { token } => "in_array doesn't allow '"@ + token
            + "' as decorator here"@,
        ErrorModel::ConflictingCastDecorators { token } => "'"@ + token
            + "' conflicts with the cast decorator already chosen"@,
        ErrorModel::UnknownGroup { group, field } => "gen_array method '"@ + group
            + "' not present but used by field '"@ + field + "'"@,
        ErrorModel::DuplicateFieldInGroup { group, field } => "Field '"@ + field
            + "' is already included in gen_array method '"@ + group + "'"@,
    }
}

impl ConfigError {
    /// Render this error's human-readable message.
    pub fn message(&self) -> (r: String)
        ensures
            r@ == spec_message(self@),
    {
        match self {
            ConfigError::DuplicateGroupName { group } => {
                let mut s: String = "gen_array method '".to_owned();
                s.append(group.as_str());
                s.append("' is declared more than once");
                s
            },
            ConfigError::DuplicateImplicitPattern { group, .. } => {
                let mut s: String = "gen_array method '".to_owned();
                s.append(group.as_str());
                s.append("' contains an implicit_select_all clause with a duplicated pattern type");
                s
            },
            ConfigError::MissingPatternType { group } => {
                let mut s: String = "gen_array method '".to_owned();
                s.append(group.as_str());
                s.append("' has an implicit_select_all clause with no type to select");
                s
            },
            ConfigError::ForbiddenDecoratorOnImplicitClause { group } => {
                let mut s: String = "gen_array method '".to_owned();
                s.append(group.as_str());
                s.append(
                    "' contains an implicit_select_all clause with forbidden decorator 'override_implicit'",
                );
                s
            },
            ConfigError::UnrecognizedDecorator { token } => {
                let mut s: String = "in_array doesn't allow '".to_owned();
                s.append(token.as_str());
                s.append("' as decorator here");
                s
            },
            ConfigError::ConflictingCastDecorators { token } => {
                let mut s: String = "'".to_owned();
                s.append(token.as_str());
                s.append("' conflicts with the cast decorator already chosen");
                s
            },
            ConfigError::UnknownGroup { group, field } => {
                let mut s: String = "gen_array method '".to_owned();
                s.append(group.as_str());
                s.append("' not present but used by field '");
                s.append(field.as_str());
                s.append("'");
                s
            },
            ConfigError::DuplicateFieldInGroup { group, field } => {
                let mut s: String = "Field '".to_owned();
                s.append(field.as_str());
                s.append("' is already included in gen_array method '");
                s.append(group.as_str());
                s.append("'");
                s
            },
        }
    }
}

/// The message template of the advisory category.
pub open spec fn spec_advisory_message(a: AdvisoryModel) -> Seq<char> {
    match a {
        AdvisoryModel::EmptyGroupAdvisory { group } => "Method '"@ + group
            + "' returns an empty array"@,
    }
}

impl Advisory {
    /// Render this advisory's human-readable message.
    pub fn message(&self) -> (r: String)
        ensures
            r@ == spec_advisory_message(self@),
    {
        match self {
            Advisory::EmptyGroupAdvisory { group } => {
                let mut s: String = "Method '".to_owned();
                s.append(group.as_str());
                s.append("' returns an empty array");
                s
            },
        }
    }
}

/// A non-fatal diagnostic: surfaced to the caller, but no bar to emission.
pub enum Advisory {
    /// A declared group ended up with no member.
    EmptyGroupAdvisory { group: String },
}

/// The mathematical model of an [`Advisory`].
pub enum AdvisoryModel {
    EmptyGroupAdvisory { group: Seq<char> },
}

impl View for Advisory {
    type V = AdvisoryModel;

    open spec fn view(&self) -> AdvisoryModel {
        match self {
            Advisory::EmptyGroupAdvisory { group } => AdvisoryModel::EmptyGroupAdvisory {
                group: group@,
            },
        }
    }
}

/// The views of a list of advisories, in order.
pub open spec fn advisory_models(xs: Seq<Advisory>) -> Seq<AdvisoryModel> {
    xs.map_values(|x: Advisory| x@)
}

} // verus!
