//! Slash command argument builders and parsers.
//!
//! Argument metadata builders are initialized via the [`Argument`] interface. The
//! currently-supported argument types are:
//!
//! - [`Argument::string`] - [`String`]
//! - [`Argument::integer`] - `i8`, `i16`, `i32`, `i64`, `u8`, `u16`, `u32`, `u64`
//! - [`Argument::float`] - `f32`, `f64`
//! - [`Argument::boolean`] - [`bool`]
//!
//! Each of those functions returns a builder specific to the argument type. They differ in some
//! properties, but they all share `name_i18n()`, `description()`, `description_i18n()` and
//! `optional()`. The `*_i18n()` methods are called once per language.
//!
//! `optional()` changes the type of argument a handler receives from `T` to `Option<T>`.
//!
//! Float bounds are carried as the bit patterns of their `f64` values
//! (`f64::to_bits`); the library never inspects them.

use vstd::prelude::*;

use crate::commands::slash::localizations::Localizations;

verus! {

/// The description an argument has until one is set.
pub open spec fn default_description() -> Seq<char> {
    "A Dyncord argument."@
}

/// A fresh `String` holding [`default_description`].
fn default_description_string() -> (s: String)
    ensures
        s@ == default_description(),
{
    "A Dyncord argument.".to_string()
}

/// Slash-command argument types.
#[derive(Debug, Clone, Copy, PartialEq, Eq, Structural)]
pub enum ArgumentType {
    String,
    Float,
    Integer,
    Boolean,
}

/// What a string argument's metadata holds.
pub struct StringArgumentView {
    pub name: Seq<char>,
    pub name_i18n: Map<Seq<char>, Seq<char>>,
    pub description: Seq<char>,
    pub description_i18n: Map<Seq<char>, Seq<char>>,
    pub min_length: Option<u16>,
    pub max_length: Option<u16>,
    pub is_optional: bool,
}

/// What an integer argument's metadata holds.
pub struct IntegerArgumentView {
    pub name: Seq<char>,
    pub name_i18n: Map<Seq<char>, Seq<char>>,
    pub description: Seq<char>,
    pub description_i18n: Map<Seq<char>, Seq<char>>,
    pub min_value: Option<i64>,
    pub max_value: Option<i64>,
    pub is_optional: bool,
}

/// What a float argument's metadata holds; bounds are `f64` bit patterns.
pub struct FloatArgumentView {
    pub name: Seq<char>,
    pub name_i18n: Map<Seq<char>, Seq<char>>,
    pub description: Seq<char>,
    pub description_i18n: Map<Seq<char>, Seq<char>>,
    pub min_value_bits: Option<u64>,
    pub max_value_bits: Option<u64>,
    pub is_optional: bool,
}

/// What a boolean argument's metadata holds.
pub struct BooleanArgumentView {
    pub name: Seq<char>,
    pub name_i18n: Map<Seq<char>, Seq<char>>,
    pub description: Seq<char>,
    pub description_i18n: Map<Seq<char>, Seq<char>>,
    pub is_optional: bool,
}

/// A unified API to build slash-command argument metadata.
///
/// It has one associated function per type of argument that can be built.
pub struct Argument;

impl Argument {
    /// Initializes a string argument builder.
    ///
    /// `name` is the argument's name, between 1 and 32 characters long.
    pub fn string(name: &str) -> (builder: StringArgumentBuilder)
        ensures
            builder@ == (StringArgumentView {
                name: name@,
                name_i18n: Map::empty(),
                description: default_description(),
                description_i18n: Map::empty(),
                min_length: None,
                max_length: None,
                is_optional: false,
            }),
    {
        StringArgumentBuilder::new(name)
    }

    /// Initializes an integer argument builder.
    pub fn integer(name: &str) -> (builder: IntegerArgumentBuilder)
        ensures
            builder@ == (IntegerArgumentView {
                name: name@,
                name_i18n: Map::empty(),
                description: default_description(),
                description_i18n: Map::empty(),
                min_value: None,
                max_value: None,
                is_optional: false,
            }),
    {
        IntegerArgumentBuilder::new(name)
    }

    /// Initializes a float argument builder.
    pub fn float(name: &str) -> (builder: FloatArgumentBuilder)
        ensures
            builder@ == (FloatArgumentView {
                name: name@,
                name_i18n: Map::empty(),
                description: default_description(),
                description_i18n: Map::empty(),
                min_value_bits: None,
                max_value_bits: None,
                is_optional: false,
            }),
    {
        FloatArgumentBuilder::new(name)
    }

    /// Initializes a boolean argument builder.
    pub fn boolean(name: &str) -> (builder: BooleanArgumentBuilder)
        ensures
            builder@ == (BooleanArgumentView {
                name: name@,
                name_i18n: Map::empty(),
                description: default_description(),
                description_i18n: Map::empty(),
                is_optional: false,
            }),
    {
        BooleanArgumentBuilder::new(name)
    }
}

// ---------------------------------------------------------------------------
// String arguments
// ---------------------------------------------------------------------------

/// Metadata of a string argument.
pub struct StringArgument {
    name: String,
    name_i18n: Localizations,
    description: String,
    description_i18n: Localizations,
    min_length: Option<u16>,
    max_length: Option<u16>,
    is_optional: bool,
}

impl View for StringArgument {
    type V = StringArgumentView;

    closed spec fn view(&self) -> StringArgumentView {
        StringArgumentView {
            name: self.name@,
            name_i18n: self.name_i18n@,
            description: self.description@,
            description_i18n: self.description_i18n@,
            min_length: self.min_length,
            max_length: self.max_length,
            is_optional: self.is_optional,
        }
    }
}

/// A builder for string argument metadata.
pub struct StringArgumentBuilder {
    name: String,
    name_i18n: Localizations,
    description: String,
    description_i18n: Localizations,
    min_length: Option<u16>,
    max_length: Option<u16>,
    is_optional: bool,
}

impl View for StringArgumentBuilder {
    type V = StringArgumentView;

    closed spec fn view(&self) -> StringArgumentView {
        StringArgumentView {
            name: self.name@,
            name_i18n: self.name_i18n@,
            description: self.description@,
            description_i18n: self.description_i18n@,
            min_length: self.min_length,
            max_length: self.max_length,
            is_optional: self.is_optional,
        }
    }
}

impl StringArgumentBuilder {
    fn new(name: &str) -> (builder: Self)
        ensures
            builder@ == (StringArgumentView {
                name: name@,
                name_i18n: Map::empty(),
                description: default_description(),
                description_i18n: Map::empty(),
                min_length: None,
                max_length: None,
                is_optional: false,
            }),
    {
        StringArgumentBuilder {
            name: name.to_string(),
            name_i18n: Localizations::new(),
            description: default_description_string(),
            description_i18n: Localizations::new(),
            min_length: None,
            max_length: None,
            is_optional: false,
        }
    }

    /// Sets the argument's name in one language.
    pub fn name_i18n(self, lang: &str, name: &str) -> (builder: Self)
        ensures
            builder@ == (StringArgumentView {
                name_i18n: self@.name_i18n.insert(lang@, name@),
                ..self@
            }),
    {
        let mut builder = self;
        builder.name_i18n.insert(lang.to_string(), name.to_string());
        builder
    }

    /// Sets the argument's description.
    pub fn description(self, description: &str) -> (builder: Self)
        ensures
            builder@ == (StringArgumentView { description: description@, ..self@ }),
    {
        let mut builder = self;
        builder.description = description.to_string();
        builder
    }

    /// Sets the argument's description in one language.
    pub fn description_i18n(self, lang: &str, description: &str) -> (builder: Self)
        ensures
            builder@ == (StringArgumentView {
                description_i18n: self@.description_i18n.insert(lang@, description@),
                ..self@
            }),
    {
        let mut builder = self;
        builder.description_i18n.insert(lang.to_string(), description.to_string());
        builder
    }

    /// Sets the minimum length of the string.
    pub fn min_length(self, length: u16) -> (builder: Self)
        ensures
            builder@ == (StringArgumentView { min_length: Some(length), ..self@ }),
    {
        let mut builder = self;
        builder.min_length = Some(length);
        builder
    }

    /// Sets the maximum length of the string.
    pub fn max_length(self, length: u16) -> (builder: Self)
        ensures
            builder@ == (StringArgumentView { max_length: Some(length), ..self@ }),
    {
        let mut builder = self;
        builder.max_length = Some(length);
        builder
    }

    /// Makes the argument optional.
    pub fn optional(self) -> (builder: Self)
        ensures
            builder@ == (StringArgumentView { is_optional: true, ..self@ }),
    {
        let mut builder = self;
        builder.is_optional = true;
        builder
    }

    /// Finishes the argument's metadata.
    pub fn build(self) -> (argument: StringArgument)
        ensures
            argument@ == self@,
    {
        StringArgument::from(self)
    }
}

// ---------------------------------------------------------------------------
// Integer arguments
// ---------------------------------------------------------------------------

/// Metadata of an integer argument.
pub struct IntegerArgument {
    name: String,
    name_i18n: Localizations,
    description: String,
    description_i18n: Localizations,
    min_value: Option<i64>,
    max_value: Option<i64>,
    is_optional: bool,
}

impl View for IntegerArgument {
    type V = IntegerArgumentView;

    closed spec fn view(&self) -> IntegerArgumentView {
        IntegerArgumentView {
            name: self.name@,
            name_i18n: self.name_i18n@,
            description: self.description@,
            description_i18n: self.description_i18n@,
            min_value: self.min_value,
            max_value: self.max_value,
            is_optional: self.is_optional,
        }
    }
}

/// A builder for integer argument metadata.
pub struct IntegerArgumentBuilder {
    name: String,
    name_i18n: Localizations,
    description: String,
    description_i18n: Localizations,
    min_value: Option<i64>,
    max_value: Option<i64>,
    is_optional: bool,
}

impl View for IntegerArgumentBuilder {
    type V = IntegerArgumentView;

    closed spec fn view(&self) -> IntegerArgumentView {
        IntegerArgumentView {
            name: self.name@,
            name_i18n: self.name_i18n@,
            description: self.description@,
            description_i18n: self.description_i18n@,
            min_value: self.min_value,
            max_value: self.max_value,
            is_optional: self.is_optional,
        }
    }
}

impl IntegerArgumentBuilder {
    fn new(name: &str) -> (builder: Self)
        ensures
            builder@ == (IntegerArgumentView {
                name: name@,
                name_i18n: Map::empty(),
                description: default_description(),
                description_i18n: Map::empty(),
                min_value: None,
                max_value: None,
                is_optional: false,
            }),
    {
        IntegerArgumentBuilder {
            name: name.to_string(),
            name_i18n: Localizations::new(),
            description: default_description_string(),
            description_i18n: Localizations::new(),
            min_value: None,
            max_value: None,
            is_optional: false,
        }
    }

    /// Sets the argument's name in one language.
    pub fn name_i18n(self, lang: &str, name: &str) -> (builder: Self)
        ensures
            builder@ == (IntegerArgumentView {
                name_i18n: self@.name_i18n.insert(lang@, name@),
                ..self@
            }),
    {
        let mut builder = self;
        builder.name_i18n.insert(lang.to_string(), name.to_string());
        builder
    }

    /// Sets the argument's description.
    pub fn description(self, description: &str) -> (builder: Self)
        ensures
            builder@ == (IntegerArgumentView { description: description@, ..self@ }),
    {
        let mut builder = self;
        builder.description = description.to_string();
        builder
    }

    /// Sets the argument's description in one language.
    pub fn description_i18n(self, lang: &str, description: &str) -> (builder: Self)
        ensures
            builder@ == (IntegerArgumentView {
                description_i18n: self@.description_i18n.insert(lang@, description@),
                ..self@
            }),
    {
        let mut builder = self;
        builder.description_i18n.insert(lang.to_string(), description.to_string());
        builder
    }

    /// Sets the smallest value accepted.
    pub fn min_value(self, value: i64) -> (builder: Self)
        ensures
            builder@ == (IntegerArgumentView { min_value: Some(value), ..self@ }),
    {
        let mut builder = self;
        builder.min_value = Some(value);
        builder
    }

    /// Sets the largest value accepted.
    pub fn max_value(self, value: i64) -> (builder: Self)
        ensures
            builder@ == (IntegerArgumentView { max_value: Some(value), ..self@ }),
    {
        let mut builder = self;
        builder.max_value = Some(value);
        builder
    }

    /// Makes the argument optional.
    pub fn optional(self) -> (builder: Self)
        ensures
            builder@ == (IntegerArgumentView { is_optional: true, ..self@ }),
    {
        let mut builder = self;
        builder.is_optional = true;
        builder
    }

    /// Finishes the argument's metadata.
    pub fn build(self) -> (argument: IntegerArgument)
        ensures
            argument@ == self@,
    {
        IntegerArgument::from(self)
    }
}

// ---------------------------------------------------------------------------
// Float arguments
// ---------------------------------------------------------------------------

/// Metadata of a float argument.
pub struct FloatArgument {
    name: String,
    name_i18n: Localizations,
    description: String,
    description_i18n: Localizations,
    min_value_bits: Option<u64>,
    max_value_bits: Option<u64>,
    is_optional: bool,
}

impl View for FloatArgument {
    type V = FloatArgumentView;

    closed spec fn view(&self) -> FloatArgumentView {
        FloatArgumentView {
            name: self.name@,
            name_i18n: self.name_i18n@,
            description: self.description@,
            description_i18n: self.description_i18n@,
            min_value_bits: self.min_value_bits,
            max_value_bits: self.max_value_bits,
            is_optional: self.is_optional,
        }
    }
}

/// A builder for float argument metadata.
pub struct FloatArgumentBuilder {
    name: String,
    name_i18n: Localizations,
    description: String,
    description_i18n: Localizations,
    min_value_bits: Option<u64>,
    max_value_bits: Option<u64>,
    is_optional: bool,
}

impl View for FloatArgumentBuilder {
    type V = FloatArgumentView;

    closed spec fn view(&self) -> FloatArgumentView {
        FloatArgumentView {
            name: self.name@,
            name_i18n: self.name_i18n@,
            description: self.description@,
            description_i18n: self.description_i18n@,
            min_value_bits: self.min_value_bits,
            max_value_bits: self.max_value_bits,
            is_optional: self.is_optional,
        }
    }
}

impl FloatArgumentBuilder {
    fn new(name: &str) -> (builder: Self)
        ensures
            builder@ == (FloatArgumentView {
                name: name@,
                name_i18n: Map::empty(),
                description: default_description(),
                description_i18n: Map::empty(),
                min_value_bits: None,
                max_value_bits: None,
                is_optional: false,
            }),
    {
        FloatArgumentBuilder {
            name: name.to_string(),
            name_i18n: Localizations::new(),
            description: default_description_string(),
            description_i18n: Localizations::new(),
            min_value_bits: None,
            max_value_bits: None,
            is_optional: false,
        }
    }

    /// Sets the argument's name in one language.
    pub fn name_i18n(self, lang: &str, name: &str) -> (builder: Self)
        ensures
            builder@ == (FloatArgumentView {
                name_i18n: self@.name_i18n.insert(lang@, name@),
                ..self@
            }),
    {
        let mut builder = self;
        builder.name_i18n.insert(lang.to_string(), name.to_string());
        builder
    }

    /// Sets the argument's description.
    pub fn description(self, description: &str) -> (builder: Self)
        ensures
            builder@ == (FloatArgumentView { description: description@, ..self@ }),
    {
        let mut builder = self;
        builder.description = description.to_string();
        builder
    }

    /// Sets the argument's description in one language.
    pub fn description_i18n(self, lang: &str, description: &str) -> (builder: Self)
        ensures
            builder@ == (FloatArgumentView {
                description_i18n: self@.description_i18n.insert(lang@, description@),
                ..self@
            }),
    {
        let mut builder = self;
        builder.description_i18n.insert(lang.to_string(), description.to_string());
        builder
    }

    /// Sets the smallest value accepted, given as the bit pattern of an `f64`.
    pub fn min_value_bits(self, bits: u64) -> (builder: Self)
        ensures
            builder@ == (FloatArgumentView { min_value_bits: Some(bits), ..self@ }),
    {
        let mut builder = self;
        builder.min_value_bits = Some(bits);
        builder
    }

    /// Sets the largest value accepted, given as the bit pattern of an `f64`.
    pub fn max_value_bits(self, bits: u64) -> (builder: Self)
        ensures
            builder@ == (FloatArgumentView { max_value_bits: Some(bits), ..self@ }),
    {
        let mut builder = self;
        builder.max_value_bits = Some(bits);
        builder
    }

    /// Makes the argument optional.
    pub fn optional(self) -> (builder: Self)
        ensures
            builder@ == (FloatArgumentView { is_optional: true, ..self@ }),
    {
        let mut builder = self;
        builder.is_optional = true;
        builder
    }

    /// Finishes the argument's metadata.
    pub fn build(self) -> (argument: FloatArgument)
        ensures
            argument@ == self@,
    {
        FloatArgument::from(self)
    }
}

// ---------------------------------------------------------------------------
// Boolean arguments
// ---------------------------------------------------------------------------

/// Metadata of a boolean argument.
pub struct BooleanArgument {
    name: String,
    name_i18n: Localizations,
    description: String,
    description_i18n: Localizations,
    is_optional: bool,
}

impl View for BooleanArgument {
    type V = BooleanArgumentView;

    closed spec fn view(&self) -> BooleanArgumentView {
        BooleanArgumentView {
            name: self.name@,
            name_i18n: self.name_i18n@,
            description: self.description@,
            description_i18n: self.description_i18n@,
            is_optional: self.is_optional,
        }
    }
}

/// A builder for boolean argument metadata.
pub struct BooleanArgumentBuilder {
    name: String,
    name_i18n: Localizations,
    description: String,
    description_i18n: Localizations,
    is_optional: bool,
}

impl View for BooleanArgumentBuilder {
    type V = BooleanArgumentView;

    closed spec fn view(&self) -> BooleanArgumentView {
        BooleanArgumentView {
            name: self.name@,
            name_i18n: self.name_i18n@,
            description: self.description@,
            description_i18n: self.description_i18n@,
            is_optional: self.is_optional,
        }
    }
}

impl BooleanArgumentBuilder {
    fn new(name: &str) -> (builder: Self)
        ensures
            builder@ == (BooleanArgumentView {
                name: name@,
                name_i18n: Map::empty(),
                description: default_description(),
                description_i18n: Map::empty(),
                is_optional: false,
            }),
    {
        BooleanArgumentBuilder {
            name: name.to_string(),
            name_i18n: Localizations::new(),
            description: default_description_string(),
            description_i18n: Localizations::new(),
            is_optional: false,
        }
    }

    /// Sets the argument's name in one language.
    pub fn name_i18n(self, lang: &str, name: &str) -> (builder: Self)
        ensures
            builder@ == (BooleanArgumentView {
                name_i18n: self@.name_i18n.insert(lang@, name@),
                ..self@
            }),
    {
        let mut builder = self;
        builder.name_i18n.insert(lang.to_string(), name.to_string());
        builder
    }

    /// Sets the argument's description.
    pub fn description(self, description: &str) -> (builder: Self)
        ensures
            builder@ == (BooleanArgumentView { description: description@, ..self@ }),
    {
        let mut builder = self;
        builder.description = description.to_string();
        builder
    }

    /// Sets the argument's description in one language.
    pub fn description_i18n(self, lang: &str, description: &str) -> (builder: Self)
        ensures
            builder@ == (BooleanArgumentView {
                description_i18n: self@.description_i18n.insert(lang@, description@),
                ..self@
            }),
    {
        let mut builder = self;
        builder.description_i18n.insert(lang.to_string(), description.to_string());
        builder
    }

    /// Makes the argument optional.
    pub fn optional(self) -> (builder: Self)
        ensures
            builder@ == (BooleanArgumentView { is_optional: true, ..self@ }),
    {
        let mut builder = self;
        builder.is_optional = true;
        builder
    }

    /// Finishes the argument's metadata.
    pub fn build(self) -> (argument: BooleanArgument)
        ensures
            argument@ == self@,
    {
        BooleanArgument::from(self)
    }
}


// ---------------------------------------------------------------------------
// Argument metadata, command option fields, and received values
// ---------------------------------------------------------------------------

/// Slash-command argument metadata.
pub enum ArgumentMeta {
    String(StringArgument),
    Float(FloatArgument),
    Integer(IntegerArgument),
    Boolean(BooleanArgument),
}

impl ArgumentMeta {
    /// The argument's name.
    pub open spec fn name_view(&self) -> Seq<char> {
        match self {
            ArgumentMeta::String(a) => a@.name,
            ArgumentMeta::Float(a) => a@.name,
            ArgumentMeta::Integer(a) => a@.name,
            ArgumentMeta::Boolean(a) => a@.name,
        }
    }

    /// The argument's type and whether it is optional.
    pub open spec fn type_view(&self) -> (ArgumentType, bool) {
        match self {
            ArgumentMeta::String(a) => (ArgumentType::String, a@.is_optional),
            ArgumentMeta::Float(a) => (ArgumentType::Float, a@.is_optional),
            ArgumentMeta::Integer(a) => (ArgumentType::Integer, a@.is_optional),
            ArgumentMeta::Boolean(a) => (ArgumentType::Boolean, a@.is_optional),
        }
    }

    /// The argument's description.
    pub open spec fn description_view(&self) -> Seq<char> {
        match self {
            ArgumentMeta::String(a) => a@.description,
            ArgumentMeta::Float(a) => a@.description,
            ArgumentMeta::Integer(a) => a@.description,
            ArgumentMeta::Boolean(a) => a@.description,
        }
    }

    /// The argument's localized names.
    pub open spec fn name_i18n_view(&self) -> Map<Seq<char>, Seq<char>> {
        match self {
            ArgumentMeta::String(a) => a@.name_i18n,
            ArgumentMeta::Float(a) => a@.name_i18n,
            ArgumentMeta::Integer(a) => a@.name_i18n,
            ArgumentMeta::Boolean(a) => a@.name_i18n,
        }
    }

    /// The argument's localized descriptions.
    pub open spec fn description_i18n_view(&self) -> Map<Seq<char>, Seq<char>> {
        match self {
            ArgumentMeta::String(a) => a@.description_i18n,
            ArgumentMeta::Float(a) => a@.description_i18n,
            ArgumentMeta::Integer(a) => a@.description_i18n,
            ArgumentMeta::Boolean(a) => a@.description_i18n,
        }
    }

    /// Returns the inner value's argument name.
    pub fn name(&self) -> (name: &String)
        ensures
            name@ == self.name_view(),
    {
        match self {
            ArgumentMeta::String(inner) => &inner.name,
            ArgumentMeta::Float(inner) => &inner.name,
            ArgumentMeta::Integer(inner) => &inner.name,
            ArgumentMeta::Boolean(inner) => &inner.name,
        }
    }

    /// Returns the argument type of the current argument, and whether it's optional.
    pub fn argument_type(&self) -> (argument_type: (ArgumentType, bool))
        ensures
            argument_type == self.type_view(),
    {
        match self {
            ArgumentMeta::String(inner) => (ArgumentType::String, inner.is_optional),
            ArgumentMeta::Float(inner) => (ArgumentType::Float, inner.is_optional),
            ArgumentMeta::Integer(inner) => (ArgumentType::Integer, inner.is_optional),
            ArgumentMeta::Boolean(inner) => (ArgumentType::Boolean, inner.is_optional),
        }
    }

    /// The command option fields that register this argument with Discord.
    pub open spec fn option_fields_view(&self) -> OptionFieldsView {
        match self {
            ArgumentMeta::String(a) => string_option_fields(a@),
            ArgumentMeta::Float(a) => float_option_fields(a@),
            ArgumentMeta::Integer(a) => integer_option_fields(a@),
            ArgumentMeta::Boolean(a) => boolean_option_fields(a@),
        }
    }

    /// Converts the argument into the fields of the command option that
    /// registers it with Discord.
    pub fn into_option_fields(self) -> (fields: OptionFields)
        ensures
            fields@ == self.option_fields_view(),
    {
        match self {
            ArgumentMeta::String(inner) => inner.into_option_fields(),
            ArgumentMeta::Float(inner) => inner.into_option_fields(),
            ArgumentMeta::Integer(inner) => inner.into_option_fields(),
            ArgumentMeta::Boolean(inner) => inner.into_option_fields(),
        }
    }
}

/// The kind of a command option as registered with Discord.
#[derive(Debug, Clone, Copy, PartialEq, Eq, Structural)]
pub enum OptionKind {
    String,
    Integer,
    Number,
    Boolean,
}

/// A bound on the value of a numeric command option.
#[derive(Debug, Clone, Copy, PartialEq, Eq, Structural)]
pub enum OptionBound {
    /// An integer bound.
    Integer(i64),
    /// A floating-point bound, as the bit pattern of an `f64`.
    NumberBits(u64),
}

/// What a registered command option holds.
pub struct OptionFieldsView {
    pub kind: OptionKind,
    pub name: Seq<char>,
    pub name_localizations: Map<Seq<char>, Seq<char>>,
    pub description: Seq<char>,
    pub description_localizations: Map<Seq<char>, Seq<char>>,
    pub min_length: Option<u16>,
    pub max_length: Option<u16>,
    pub min_value: Option<OptionBound>,
    pub max_value: Option<OptionBound>,
    pub autocomplete: bool,
    pub required: bool,
}

/// The fields of the command option that registers an argument with Discord.
///
/// The option has no channel types, choices or sub-options.
pub struct OptionFields {
    pub kind: OptionKind,
    pub name: String,
    pub name_localizations: Localizations,
    pub description: String,
    pub description_localizations: Localizations,
    pub min_length: Option<u16>,
    pub max_length: Option<u16>,
    pub min_value: Option<OptionBound>,
    pub max_value: Option<OptionBound>,
    pub autocomplete: bool,
    pub required: bool,
}

impl View for OptionFields {
    type V = OptionFieldsView;

    open spec fn view(&self) -> OptionFieldsView {
        OptionFieldsView {
            kind: self.kind,
            name: self.name@,
            name_localizations: self.name_localizations@,
            description: self.description@,
            description_localizations: self.description_localizations@,
            min_length: self.min_length,
            max_length: self.max_length,
            min_value: self.min_value,
            max_value: self.max_value,
            autocomplete: self.autocomplete,
            required: self.required,
        }
    }
}

/// An optional integer bound as a command option bound.
pub open spec fn integer_bound(value: Option<i64>) -> Option<OptionBound> {
    match value {
        Some(v) => Some(OptionBound::Integer(v)),
        None => None,
    }
}

/// An optional float bound (bit pattern) as a command option bound.
pub open spec fn number_bound(bits: Option<u64>) -> Option<OptionBound> {
    match bits {
        Some(b) => Some(OptionBound::NumberBits(b)),
        None => None,
    }
}

/// The option registering a string argument: a string option with the
/// argument's length limits, required unless the argument is optional.
pub open spec fn string_option_fields(a: StringArgumentView) -> OptionFieldsView {
    OptionFieldsView {
        kind: OptionKind::String,
        name: a.name,
        name_localizations: a.name_i18n,
        description: a.description,
        description_localizations: a.description_i18n,
        min_length: a.min_length,
        max_length: a.max_length,
        min_value: None,
        max_value: None,
        autocomplete: false,
        required: !a.is_optional,
    }
}

/// The option registering an integer argument: the argument's value limits,
/// registered as an integer option, required unless optional.
pub open spec fn integer_option_fields(a: IntegerArgumentView) -> OptionFieldsView {
    OptionFieldsView {
        kind: OptionKind::Integer,
        name: a.name,
        name_localizations: a.name_i18n,
        description: a.description,
        description_localizations: a.description_i18n,
        min_length: None,
        max_length: None,
        min_value: integer_bound(a.min_value),
        max_value: integer_bound(a.max_value),
        autocomplete: false,
        required: !a.is_optional,
    }
}

/// The option registering a float argument: the argument's value limits,
/// registered as a number option, required unless optional.
pub open spec fn float_option_fields(a: FloatArgumentView) -> OptionFieldsView {
    OptionFieldsView {
        kind: OptionKind::Number,
        name: a.name,
        name_localizations: a.name_i18n,
        description: a.description,
        description_localizations: a.description_i18n,
        min_length: None,
        max_length: None,
        min_value: number_bound(a.min_value_bits),
        max_value: number_bound(a.max_value_bits),
        autocomplete: false,
        required: !a.is_optional,
    }
}

/// The option registering a boolean argument: a boolean option, required
/// unless the argument is optional.
pub open spec fn boolean_option_fields(a: BooleanArgumentView) -> OptionFieldsView {
    OptionFieldsView {
        kind: OptionKind::Boolean,
        name: a.name,
        name_localizations: a.name_i18n,
        description: a.description,
        description_localizations: a.description_i18n,
        min_length: None,
        max_length: None,
        min_value: None,
        max_value: None,
        autocomplete: false,
        required: !a.is_optional,
    }
}

impl StringArgument {
    /// Converts the argument into the fields of its command option.
    pub fn into_option_fields(self) -> (fields: OptionFields)
        ensures
            fields@ == string_option_fields(self@),
    {
        OptionFields {
            kind: OptionKind::String,
            name: self.name,
            name_localizations: self.name_i18n,
            description: self.description,
            description_localizations: self.description_i18n,
            min_length: self.min_length,
            max_length: self.max_length,
            min_value: None,
            max_value: None,
            autocomplete: false,
            required: !self.is_optional,
        }
    }
}

impl IntegerArgument {
    /// Converts the argument into the fields of its command option.
    pub fn into_option_fields(self) -> (fields: OptionFields)
        ensures
            fields@ == integer_option_fields(self@),
    {
        let min_value = match self.min_value {
            Some(v) => Some(OptionBound::Integer(v)),
            None => None,
        };
        let max_value = match self.max_value {
            Some(v) => Some(OptionBound::Integer(v)),
            None => None,
        };
        OptionFields {
            kind: OptionKind::Integer,
            name: self.name,
            name_localizations: self.name_i18n,
            description: self.description,
            description_localizations: self.description_i18n,
            min_length: None,
            max_length: None,
            min_value,
            max_value,
            autocomplete: false,
            required: !self.is_optional,
        }
    }
}

impl FloatArgument {
    /// Converts the argument into the fields of its command option.
    pub fn into_option_fields(self) -> (fields: OptionFields)
        ensures
            fields@ == float_option_fields(self@),
    {
        let min_value = match self.min_value_bits {
            Some(b) => Some(OptionBound::NumberBits(b)),
            None => None,
        };
        let max_value = match self.max_value_bits {
            Some(b) => Some(OptionBound::NumberBits(b)),
            None => None,
        };
        OptionFields {
            kind: OptionKind::Number,
            name: self.name,
            name_localizations: self.name_i18n,
            description: self.description,
            description_localizations: self.description_i18n,
            min_length: None,
            max_length: None,
            min_value,
            max_value,
            autocomplete: false,
            required: !self.is_optional,
        }
    }
}

impl BooleanArgument {
    /// Converts the argument into the fields of its command option.
    pub fn into_option_fields(self) -> (fields: OptionFields)
        ensures
            fields@ == boolean_option_fields(self@),
    {
        OptionFields {
            kind: OptionKind::Boolean,
            name: self.name,
            name_localizations: self.name_i18n,
            description: self.description,
            description_localizations: self.description_i18n,
            min_length: None,
            max_length: None,
            min_value: None,
            max_value: None,
            autocomplete: false,
            required: !self.is_optional,
        }
    }
}

/// Why a received argument could not be handed to a command handler.
#[derive(Debug, Clone, Copy, PartialEq, Eq, Structural)]
pub enum ArgumentError {
    /// The argument was declared but not received.
    Missing,
    /// The argument was received with a value of another type.
    Mistyped,
    /// The argument's value does not fit the handler's type.
    Misformatted,
}

/// The value of a received argument, as far as string parsing reads it.
pub enum ArgumentValue {
    /// A string value.
    String(String),
    /// A value of any other type.
    Other,
}

/// Parses a received argument for a `String` handler parameter: a string
/// value is handed over, a value of another type is `Mistyped`, and an
/// argument that was not received is `Missing`.
pub fn string_argument(argument: Option<ArgumentValue>) -> (parsed: Result<String, ArgumentError>)
    ensures
        parsed == (match argument {
            Some(ArgumentValue::String(value)) => Ok(value),
            Some(ArgumentValue::Other) => Err(ArgumentError::Mistyped),
            None => Err(ArgumentError::Missing),
        }),
{
    match argument {
        Some(ArgumentValue::String(value)) => Ok(value),
        Some(ArgumentValue::Other) => Err(ArgumentError::Mistyped),
        None => Err(ArgumentError::Missing),
    }
}

/// The parse of an optional parameter, from the parse of the parameter it
/// wraps.
pub open spec fn optional_parse<T>(parsed: Result<T, ArgumentError>) -> Result<
    Option<T>,
    ArgumentError,
> {
    match parsed {
        Ok(value) => Ok(Some(value)),
        Err(ArgumentError::Missing) => Ok(None),
        Err(error) => Err(error),
    }
}

/// Turns the parse of a required argument into the parse of the same argument
/// declared optional: a missing argument becomes `None`, a value becomes
/// `Some`, and every other error is kept.
pub fn optional_argument<T>(parsed: Result<T, ArgumentError>) -> (optional: Result<
    Option<T>,
    ArgumentError,
>)
    ensures
        optional == optional_parse(parsed),
{
    match parsed {
        Ok(value) => Ok(Some(value)),
        Err(error) => match error {
            ArgumentError::Missing => Ok(None),
            _ => Err(error),
        },
    }
}

/// The argument type of an optional parameter: the type of the parameter it
/// wraps, marked optional.
pub fn optional_argument_type(inner: (ArgumentType, bool)) -> (argument_type: (ArgumentType, bool))
    ensures
        argument_type == (inner.0, true),
{
    (inner.0, true)
}

/// Setting a localized text twice for the same language keeps the last one.
pub proof fn lemma_localization_last_wins(
    texts: Map<Seq<char>, Seq<char>>,
    lang: Seq<char>,
    first: Seq<char>,
    second: Seq<char>,
)
    ensures
        texts.insert(lang, first).insert(lang, second) == texts.insert(lang, second),
{
    assert(texts.insert(lang, first).insert(lang, second) =~= texts.insert(
        lang,
        second,
    ));
}

/// Localized texts for different languages can be set in either order.
pub proof fn lemma_localizations_commute(
    texts: Map<Seq<char>, Seq<char>>,
    lang_a: Seq<char>,
    text_a: Seq<char>,
    lang_b: Seq<char>,
    text_b: Seq<char>,
)
    requires
        lang_a != lang_b,
    ensures
        texts.insert(lang_a, text_a).insert(lang_b, text_b) == texts.insert(
            lang_b,
            text_b,
        ).insert(lang_a, text_a),
{
    assert(texts.insert(lang_a, text_a).insert(lang_b, text_b) =~= texts.insert(
        lang_b,
        text_b,
    ).insert(lang_a, text_a));
}

/// The command option that registers an argument carries the argument's name,
/// description and localized texts, and is required exactly when the argument
/// was not made optional.
pub proof fn lemma_option_matches_argument(meta: ArgumentMeta)
    ensures
        meta.option_fields_view().name == meta.name_view(),
        meta.option_fields_view().description == meta.description_view(),
        meta.option_fields_view().name_localizations == meta.name_i18n_view(),
        meta.option_fields_view().description_localizations == meta.description_i18n_view(),
        meta.option_fields_view().required == !meta.type_view().1,
        !meta.option_fields_view().autocomplete,
{
}

/// The option's limits are the argument's own: a string argument's length
/// limits, an integer argument's value limits as integers, and a float
/// argument's value limits as the same `f64` bit patterns.
pub proof fn lemma_option_limits_match_argument(meta: ArgumentMeta)
    ensures
        match meta {
            ArgumentMeta::String(a) => {
                &&& meta.option_fields_view().min_length == a@.min_length
                &&& meta.option_fields_view().max_length == a@.max_length
            },
            ArgumentMeta::Integer(a) => {
                &&& forall|v: i64|
                    (meta.option_fields_view().min_value == Some(OptionBound::Integer(v))) == (
                    a@.min_value == Some(v))
                &&& forall|v: i64|
                    (meta.option_fields_view().max_value == Some(OptionBound::Integer(v))) == (
                    a@.max_value == Some(v))
                &&& (meta.option_fields_view().min_value is None) == (a@.min_value is None)
                &&& (meta.option_fields_view().max_value is None) == (a@.max_value is None)
            },
            ArgumentMeta::Float(a) => {
                &&& forall|b: u64|
                    (meta.option_fields_view().min_value == Some(OptionBound::NumberBits(b))) == (
                    a@.min_value_bits == Some(b))
                &&& forall|b: u64|
                    (meta.option_fields_view().max_value == Some(OptionBound::NumberBits(b))) == (
                    a@.max_value_bits == Some(b))
                &&& (meta.option_fields_view().min_value is None) == (a@.min_value_bits is None)
                &&& (meta.option_fields_view().max_value is None) == (a@.max_value_bits is None)
            },
            ArgumentMeta::Boolean(_) => true,
        },
{
}

/// Each argument type registers as its own option kind (string, number,
/// integer, boolean); an argument's option has length limits only if it is a
/// string argument, and value limits only if it is numeric.
pub proof fn lemma_option_limits_follow_type(meta: ArgumentMeta)
    ensures
        meta.option_fields_view().kind == (match meta.type_view().0 {
            ArgumentType::String => OptionKind::String,
            ArgumentType::Float => OptionKind::Number,
            ArgumentType::Integer => OptionKind::Integer,
            ArgumentType::Boolean => OptionKind::Boolean,
        }),
        meta.type_view().0 != ArgumentType::String ==> meta.option_fields_view().min_length is None
            && meta.option_fields_view().max_length is None,
        (meta.type_view().0 == ArgumentType::String || meta.type_view().0
            == ArgumentType::Boolean) ==> meta.option_fields_view().min_value is None
            && meta.option_fields_view().max_value is None,
{
}

/// An optional parameter never reports its argument as missing: a missing
/// argument is `None`, a received one is `Some` of what the required parse
/// gives, and other errors are the same.
pub proof fn lemma_optional_never_missing<T>(parsed: Result<T, ArgumentError>)
    ensures
        ({
            let optional = optional_parse(parsed);
            &&& optional != Err::<Option<T>, ArgumentError>(ArgumentError::Missing)
            &&& (optional is Ok) == (parsed is Ok || parsed == Err::<T, ArgumentError>(
                ArgumentError::Missing,
            ))
        }),
{
}

impl From<StringArgumentBuilder> for StringArgument {
    fn from(value: StringArgumentBuilder) -> (argument: StringArgument)
        ensures
            argument@ == value@,
    {
        StringArgument {
            name: value.name,
            name_i18n: value.name_i18n,
            description: value.description,
            description_i18n: value.description_i18n,
            min_length: value.min_length,
            max_length: value.max_length,
            is_optional: value.is_optional,
        }
    }
}

impl vstd::std_specs::convert::FromSpecImpl<StringArgumentBuilder> for StringArgument {
    open spec fn obeys_from_spec() -> bool {
        true
    }

    closed spec fn from_spec(v: StringArgumentBuilder) -> StringArgument {
        StringArgument {
            name: v.name,
            name_i18n: v.name_i18n,
            description: v.description,
            description_i18n: v.description_i18n,
            min_length: v.min_length,
            max_length: v.max_length,
            is_optional: v.is_optional,
        }
    }
}

impl From<StringArgument> for ArgumentMeta {
    fn from(value: StringArgument) -> (meta: ArgumentMeta) {
        ArgumentMeta::String(value)
    }
}

impl vstd::std_specs::convert::FromSpecImpl<StringArgument> for ArgumentMeta {
    open spec fn obeys_from_spec() -> bool {
        true
    }

    open spec fn from_spec(v: StringArgument) -> ArgumentMeta {
        ArgumentMeta::String(v)
    }
}

impl From<StringArgumentBuilder> for ArgumentMeta {
    fn from(value: StringArgumentBuilder) -> (meta: ArgumentMeta)
        ensures
            meta is String,
            meta->String_0@ == value@,
    {
        ArgumentMeta::String(StringArgument {
                name: value.name,
                name_i18n: value.name_i18n,
                description: value.description,
                description_i18n: value.description_i18n,
                min_length: value.min_length,
                max_length: value.max_length,
                is_optional: value.is_optional,
        })
    }
}

impl vstd::std_specs::convert::FromSpecImpl<StringArgumentBuilder> for ArgumentMeta {
    open spec fn obeys_from_spec() -> bool {
        true
    }

    closed spec fn from_spec(v: StringArgumentBuilder) -> ArgumentMeta {
        ArgumentMeta::String(StringArgument {
                name: v.name,
                name_i18n: v.name_i18n,
                description: v.description,
                description_i18n: v.description_i18n,
                min_length: v.min_length,
                max_length: v.max_length,
                is_optional: v.is_optional,
        })
    }
}

impl From<IntegerArgumentBuilder> for IntegerArgument {
    fn from(value: IntegerArgumentBuilder) -> (argument: IntegerArgument)
        ensures
            argument@ == value@,
    {
        IntegerArgument {
            name: value.name,
            name_i18n: value.name_i18n,
            description: value.description,
            description_i18n: value.description_i18n,
            min_value: value.min_value,
            max_value: value.max_value,
            is_optional: value.is_optional,
        }
    }
}

impl vstd::std_specs::convert::FromSpecImpl<IntegerArgumentBuilder> for IntegerArgument {
    open spec fn obeys_from_spec() -> bool {
        true
    }

    closed spec fn from_spec(v: IntegerArgumentBuilder) -> IntegerArgument {
        IntegerArgument {
            name: v.name,
            name_i18n: v.name_i18n,
            description: v.description,
            description_i18n: v.description_i18n,
            min_value: v.min_value,
            max_value: v.max_value,
            is_optional: v.is_optional,
        }
    }
}

impl From<IntegerArgument> for ArgumentMeta {
    fn from(value: IntegerArgument) -> (meta: ArgumentMeta) {
        ArgumentMeta::Integer(value)
    }
}

impl vstd::std_specs::convert::FromSpecImpl<IntegerArgument> for ArgumentMeta {
    open spec fn obeys_from_spec() -> bool {
        true
    }

    open spec fn from_spec(v: IntegerArgument) -> ArgumentMeta {
        ArgumentMeta::Integer(v)
    }
}

impl From<IntegerArgumentBuilder> for ArgumentMeta {
    fn from(value: IntegerArgumentBuilder) -> (meta: ArgumentMeta)
        ensures
            meta is Integer,
            meta->Integer_0@ == value@,
    {
        ArgumentMeta::Integer(IntegerArgument {
                name: value.name,
                name_i18n: value.name_i18n,
                description: value.description,
                description_i18n: value.description_i18n,
                min_value: value.min_value,
                max_value: value.max_value,
                is_optional: value.is_optional,
        })
    }
}

impl vstd::std_specs::convert::FromSpecImpl<IntegerArgumentBuilder> for ArgumentMeta {
    open spec fn obeys_from_spec() -> bool {
        true
    }

    closed spec fn from_spec(v: IntegerArgumentBuilder) -> ArgumentMeta {
        ArgumentMeta::Integer(IntegerArgument {
                name: v.name,
                name_i18n: v.name_i18n,
                description: v.description,
                description_i18n: v.description_i18n,
                min_value: v.min_value,
                max_value: v.max_value,
                is_optional: v.is_optional,
        })
    }
}

impl From<FloatArgumentBuilder> for FloatArgument {
    fn from(value: FloatArgumentBuilder) -> (argument: FloatArgument)
        ensures
            argument@ == value@,
    {
        FloatArgument {
            name: value.name,
            name_i18n: value.name_i18n,
            description: value.description,
            description_i18n: value.description_i18n,
            min_value_bits: value.min_value_bits,
            max_value_bits: value.max_value_bits,
            is_optional: value.is_optional,
        }
    }
}

impl vstd::std_specs::convert::FromSpecImpl<FloatArgumentBuilder> for FloatArgument {
    open spec fn obeys_from_spec() -> bool {
        true
    }

    closed spec fn from_spec(v: FloatArgumentBuilder) -> FloatArgument {
        FloatArgument {
            name: v.name,
            name_i18n: v.name_i18n,
            description: v.description,
            description_i18n: v.description_i18n,
            min_value_bits: v.min_value_bits,
            max_value_bits: v.max_value_bits,
            is_optional: v.is_optional,
        }
    }
}

impl From<FloatArgument> for ArgumentMeta {
    fn from(value: FloatArgument) -> (meta: ArgumentMeta) {
        ArgumentMeta::Float(value)
    }
}

impl vstd::std_specs::convert::FromSpecImpl<FloatArgument> for ArgumentMeta {
    open spec fn obeys_from_spec() -> bool {
        true
    }

    open spec fn from_spec(v: FloatArgument) -> ArgumentMeta {
        ArgumentMeta::Float(v)
    }
}

impl From<FloatArgumentBuilder> for ArgumentMeta {
    fn from(value: FloatArgumentBuilder) -> (meta: ArgumentMeta)
        ensures
            meta is Float,
            meta->Float_0@ == value@,
    {
        ArgumentMeta::Float(FloatArgument {
                name: value.name,
                name_i18n: value.name_i18n,
                description: value.description,
                description_i18n: value.description_i18n,
                min_value_bits: value.min_value_bits,
                max_value_bits: value.max_value_bits,
                is_optional: value.is_optional,
        })
    }
}

impl vstd::std_specs::convert::FromSpecImpl<FloatArgumentBuilder> for ArgumentMeta {
    open spec fn obeys_from_spec() -> bool {
        true
    }

    closed spec fn from_spec(v: FloatArgumentBuilder) -> ArgumentMeta {
        ArgumentMeta::Float(FloatArgument {
                name: v.name,
                name_i18n: v.name_i18n,
                description: v.description,
                description_i18n: v.description_i18n,
                min_value_bits: v.min_value_bits,
                max_value_bits: v.max_value_bits,
                is_optional: v.is_optional,
        })
    }
}

impl From<BooleanArgumentBuilder> for BooleanArgument {
    fn from(value: BooleanArgumentBuilder) -> (argument: BooleanArgument)
        ensures
            argument@ == value@,
    {
        BooleanArgument {
            name: value.name,
            name_i18n: value.name_i18n,
            description: value.description,
            description_i18n: value.description_i18n,
            is_optional: value.is_optional,
        }
    }
}

impl vstd::std_specs::convert::FromSpecImpl<BooleanArgumentBuilder> for BooleanArgument {
    open spec fn obeys_from_spec() -> bool {
        true
    }

    closed spec fn from_spec(v: BooleanArgumentBuilder) -> BooleanArgument {
        BooleanArgument {
            name: v.name,
            name_i18n: v.name_i18n,
            description: v.description,
            description_i18n: v.description_i18n,
            is_optional: v.is_optional,
        }
    }
}

impl From<BooleanArgument> for ArgumentMeta {
    fn from(value: BooleanArgument) -> (meta: ArgumentMeta) {
        ArgumentMeta::Boolean(value)
    }
}

impl vstd::std_specs::convert::FromSpecImpl<BooleanArgument> for ArgumentMeta {
    open spec fn obeys_from_spec() -> bool {
        true
    }

    open spec fn from_spec(v: BooleanArgument) -> ArgumentMeta {
        ArgumentMeta::Boolean(v)
    }
}

impl From<BooleanArgumentBuilder> for ArgumentMeta {
    fn from(value: BooleanArgumentBuilder) -> (meta: ArgumentMeta)
        ensures
            meta is Boolean,
            meta->Boolean_0@ == value@,
    {
        ArgumentMeta::Boolean(BooleanArgument {
                name: value.name,
                name_i18n: value.name_i18n,
                description: value.description,
                description_i18n: value.description_i18n,
                is_optional: value.is_optional,
        })
    }
}

impl vstd::std_specs::convert::FromSpecImpl<BooleanArgumentBuilder> for ArgumentMeta {
    open spec fn obeys_from_spec() -> bool {
        true
    }

    closed spec fn from_spec(v: BooleanArgumentBuilder) -> ArgumentMeta {
        ArgumentMeta::Boolean(BooleanArgument {
                name: v.name,
                name_i18n: v.name_i18n,
                description: v.description,
                description_i18n: v.description_i18n,
                is_optional: v.is_optional,
        })
    }
}

} // verus!
