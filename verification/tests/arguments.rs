use dyncord::commands::slash::arguments::{
    optional_argument, optional_argument_type, string_argument, Argument, ArgumentError,
    ArgumentMeta, ArgumentType, ArgumentValue, BooleanArgument, IntegerArgument, OptionBound,
    OptionKind, StringArgument,
};
use dyncord::commands::slash::localizations::Localizations;

fn get(l: &Localizations, lang: &str) -> Option<String> {
    l.get(&lang.to_string())
}

#[test]
fn string_builder_defaults() {
    let meta: ArgumentMeta = Argument::string("name").into();
    assert_eq!(meta.name(), "name");
    assert_eq!(meta.argument_type(), (ArgumentType::String, false));
    let fields = meta.into_option_fields();
    assert_eq!(fields.kind, OptionKind::String);
    assert_eq!(fields.name, "name");
    assert_eq!(fields.description, "A Dyncord argument.");
    assert_eq!(fields.name_localizations.len(), 0);
    assert_eq!(fields.description_localizations.len(), 0);
    assert_eq!(fields.min_length, None);
    assert_eq!(fields.max_length, None);
    assert_eq!(fields.min_value, None);
    assert_eq!(fields.max_value, None);
    assert!(!fields.autocomplete);
    assert!(fields.required);
}

#[test]
fn string_builder_sets_every_field() {
    let arg: StringArgument = Argument::string("name")
        .name_i18n("es-ES", "nombre")
        .name_i18n("ja-JP", "名前")
        .name_i18n("fr-FR", "nom")
        .description("Your name")
        .description_i18n("es-ES", "Tu nombre")
        .min_length(2)
        .max_length(32)
        .optional()
        .build();
    let fields = ArgumentMeta::from(arg).into_option_fields();
    assert_eq!(fields.name, "name");
    assert_eq!(fields.description, "Your name");
    assert_eq!(fields.name_localizations.len(), 3);
    assert_eq!(get(&fields.name_localizations, "es-ES"), Some("nombre".to_string()));
    assert_eq!(get(&fields.name_localizations, "ja-JP"), Some("名前".to_string()));
    assert_eq!(get(&fields.name_localizations, "fr-FR"), Some("nom".to_string()));
    assert_eq!(get(&fields.name_localizations, "de-DE"), None);
    assert_eq!(get(&fields.description_localizations, "es-ES"), Some("Tu nombre".to_string()));
    assert_eq!(fields.min_length, Some(2));
    assert_eq!(fields.max_length, Some(32));
    assert!(!fields.required);
}

#[test]
fn localization_set_twice_keeps_last() {
    let fields = ArgumentMeta::from(
        Argument::boolean("flag").name_i18n("es-ES", "bandera").name_i18n("es-ES", "opcion"),
    )
    .into_option_fields();
    assert_eq!(fields.name_localizations.len(), 1);
    assert_eq!(get(&fields.name_localizations, "es-ES"), Some("opcion".to_string()));
}

#[test]
fn description_set_twice_keeps_last() {
    let fields = ArgumentMeta::from(Argument::string("a").description("one").description("two"))
        .into_option_fields();
    assert_eq!(fields.description, "two");
}

#[test]
fn integer_builder_bounds() {
    let arg: IntegerArgument = Argument::integer("count").min_value(-5).max_value(10).into();
    let meta = ArgumentMeta::from(arg);
    assert_eq!(meta.argument_type(), (ArgumentType::Integer, false));
    let fields = meta.into_option_fields();
    assert_eq!(fields.kind, OptionKind::Integer);
    assert_eq!(fields.min_value, Some(OptionBound::Integer(-5)));
    assert_eq!(fields.max_value, Some(OptionBound::Integer(10)));
    assert_eq!(fields.min_length, None);
    assert!(fields.required);
}

#[test]
fn float_builder_bounds_as_bits() {
    let meta: ArgumentMeta = Argument::float("ratio")
        .min_value_bits(0.5f64.to_bits())
        .max_value_bits(2.25f64.to_bits())
        .optional()
        .into();
    assert_eq!(meta.argument_type(), (ArgumentType::Float, true));
    let fields = meta.into_option_fields();
    assert_eq!(fields.kind, OptionKind::Number);
    assert_eq!(fields.min_value, Some(OptionBound::NumberBits(0.5f64.to_bits())));
    assert_eq!(fields.max_value, Some(OptionBound::NumberBits(2.25f64.to_bits())));
    assert!(!fields.required);
}

#[test]
fn boolean_builder_kind() {
    let arg: BooleanArgument = Argument::boolean("yes").description("Yes or no").optional().build();
    let meta = ArgumentMeta::from(arg);
    assert_eq!(meta.name(), "yes");
    assert_eq!(meta.argument_type(), (ArgumentType::Boolean, true));
    let fields = meta.into_option_fields();
    assert_eq!(fields.kind, OptionKind::Boolean);
    assert_eq!(fields.description, "Yes or no");
    assert_eq!(fields.min_value, None);
    assert!(!fields.required);
}

#[test]
fn string_argument_parses_string_value() {
    assert_eq!(
        string_argument(Some(ArgumentValue::String("hi".to_string()))),
        Ok("hi".to_string())
    );
}

#[test]
fn string_argument_rejects_other_value() {
    assert_eq!(string_argument(Some(ArgumentValue::Other)), Err(ArgumentError::Mistyped));
}

#[test]
fn string_argument_reports_missing() {
    assert_eq!(string_argument(None), Err(ArgumentError::Missing));
}

#[test]
fn optional_argument_cases() {
    assert_eq!(optional_argument::<u8>(Ok(7)), Ok(Some(7)));
    assert_eq!(optional_argument::<u8>(Err(ArgumentError::Missing)), Ok(None));
    assert_eq!(optional_argument::<u8>(Err(ArgumentError::Mistyped)), Err(ArgumentError::Mistyped));
    assert_eq!(
        optional_argument::<u8>(Err(ArgumentError::Misformatted)),
        Err(ArgumentError::Misformatted)
    );
}

#[test]
fn optional_argument_type_marks_optional() {
    assert_eq!(optional_argument_type((ArgumentType::Integer, false)), (ArgumentType::Integer, true));
    assert_eq!(optional_argument_type((ArgumentType::String, true)), (ArgumentType::String, true));
}

#[test]
fn localizations_insert_get_replace() {
    let mut l = Localizations::new();
    assert_eq!(l.len(), 0);
    l.insert("en-US".to_string(), "hello".to_string());
    l.insert("es-ES".to_string(), "hola".to_string());
    assert_eq!(l.len(), 2);
    l.insert("en-US".to_string(), "hi".to_string());
    assert_eq!(l.len(), 2);
    assert_eq!(get(&l, "en-US"), Some("hi".to_string()));
    assert_eq!(get(&l, "es-ES"), Some("hola".to_string()));
    assert_eq!(l.entries().len(), 2);
}

#[test]
fn localizations_for_different_languages_commute() {
    let a = ArgumentMeta::from(Argument::string("x").name_i18n("en", "a").name_i18n("fr", "b"))
        .into_option_fields();
    let b = ArgumentMeta::from(Argument::string("x").name_i18n("fr", "b").name_i18n("en", "a"))
        .into_option_fields();
    for lang in ["en", "fr", "de"] {
        assert_eq!(get(&a.name_localizations, lang), get(&b.name_localizations, lang));
    }
}
