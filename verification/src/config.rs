use vstd::prelude::*;
use vstd::string::{StrSliceExecFns, StringExecFns, StringSliceAdditionalSpecFns};
use crate::window::UpdateCap;

verus! {

/// A parsed TOML value of the `toml` crate. Nothing is known of what is
/// inside but through the functions below.
#[verifier::external_type_specification]
#[verifier::external_body]
pub struct ExTomlValue(toml::Value);

/// The error with which the `toml` crate rejects a text.
#[verifier::external_type_specification]
#[verifier::external_body]
pub struct ExTomlError(toml::de::Error);

/// What the configuration says under one key, as far as the window cares.
pub enum Field {
    /// The key is not there.
    Missing,
    /// An integer.
    Integer(i64),
    /// A string.
    Text(String),
    /// A value of any other type.
    Other,
}

/// A field with its text as a sequence of characters.
pub enum FieldView {
    Missing,
    Integer(i64),
    Text(Seq<char>),
    Other,
}

impl View for Field {
    type V = FieldView;

    open spec fn view(&self) -> FieldView {
        match self {
            Field::Missing => FieldView::Missing,
            Field::Integer(v) => FieldView::Integer(*v),
            Field::Text(s) => FieldView::Text(s@),
            Field::Other => FieldView::Other,
        }
    }
}

/// What the `toml` crate makes of a text: the document, or the error with
/// which it rejects the text.
pub uninterp spec fn toml_document(text: Seq<char>) -> Result<toml::Value, toml::de::Error>;

/// The message of an error of the `toml` crate.
pub uninterp spec fn toml_error_text(error: toml::de::Error) -> Seq<char>;

/// The value that a TOML value holds under a string key: `None` where the
/// value is no table or the table has no such key.
pub uninterp spec fn toml_entry(value: toml::Value, key: Seq<char>) -> Option<toml::Value>;

/// The integer or the string that a TOML value is, and `Other` for every
/// other type of value. It is never `Missing`.
pub uninterp spec fn toml_shape(value: toml::Value) -> FieldView;

/// The most characters that open a level which a text handed to the parser
/// may hold.
pub const MAX_OPENERS: usize = 128;

/// Whether a byte is one of the characters that open a level in TOML: `[`
/// for an array or a table header, `{` for an inline table, `.` between the
/// parts of a dotted key.
pub open spec fn opens(byte: u8) -> bool {
    byte == 0x5B || byte == 0x7B || byte == 0x2E
}

/// How many of the bytes open a level.
pub open spec fn openers(bytes: Seq<u8>) -> nat
    decreases bytes.len(),
{
    if bytes.len() == 0 {
        0
    } else {
        openers(bytes.drop_last()) + if opens(bytes.last()) {
            1nat
        } else {
            0nat
        }
    }
}

/// Whether a text is safe to hand to the parser: it holds at most
/// `MAX_OPENERS` characters that open a level, so no value in it is nested
/// deeper than that.
pub open spec fn shallow(text: Seq<char>) -> bool {
    openers(vstd::utf8::encode_utf8(text)) <= MAX_OPENERS
}

/// Calls `str::parse::<toml::Value>`, which is `toml::Value::from_str`. The
/// contract only gives the outcome its name. The crate parses by recursive
/// descent and sets no limit on nesting: each level that it descends is
/// opened by a `[`, a `{` or a `.` of the text, so a text is admitted only
/// where it holds few of them.
#[verifier::external_body]
fn parse_document(text: &str) -> (r: Result<toml::Value, toml::de::Error>)
    requires
        shallow(text@),
    ensures
        r == toml_document(text@),
{
    text.parse::<toml::Value>()
}

/// Calls `to_string` on an error of the `toml` crate, which writes it as
/// its `Display` does. The contract only gives the message its name.
#[verifier::external_body]
fn error_text(error: &toml::de::Error) -> (r: String)
    ensures
        r@ == toml_error_text(*error),
{
    error.to_string()
}

/// Calls `toml::Value::get` with a string key. The contract only gives the
/// outcome its name.
#[verifier::external_body]
fn entry<'a>(value: &'a toml::Value, key: &str) -> (r: Option<&'a toml::Value>)
    ensures
        match r {
            Some(found) => toml_entry(*value, key@) == Some(*found),
            None => toml_entry(*value, key@) is None,
        },
{
    value.get(key)
}

/// Tells the variants of `toml::Value` apart: an integer and a string are
/// handed out as they are, every other variant as `Other`.
#[verifier::external_body]
fn shape(value: &toml::Value) -> (r: Field)
    ensures
        r@ == toml_shape(*value),
        !(r is Missing),
{
    match value {
        toml::Value::Integer(number) => Field::Integer(*number),
        toml::Value::String(text) => Field::Text(text.clone()),
        _ => Field::Other,
    }
}

/// The keys of the `window` table.
#[derive(Copy, Clone, Eq, PartialEq, Debug, Structural)]
pub enum ConfigKey {
    Width,
    Height,
    Title,
    Cap,
    MinWidth,
    MinHeight,
    MaxWidth,
    MaxHeight,
}

/// Why a part of the configuration fell back to its default.
#[derive(Copy, Clone, Eq, PartialEq, Debug, Structural)]
pub enum ConfigWarning {
    /// There is no text to read: every field has its default.
    Unreadable,
    /// The text is no TOML document: every field has its default.
    Unparsable,
    /// The document has no `window` entry: every field has its default.
    MissingSection,
    /// The field is missing or malformed: it has its default.
    BadField(ConfigKey),
}

impl ConfigKey {
    /// The key as it is written in the configuration.
    pub open spec fn name(self) -> Seq<char> {
        match self {
            ConfigKey::Width => "width"@,
            ConfigKey::Height => "height"@,
            ConfigKey::Title => "title"@,
            ConfigKey::Cap => "cap"@,
            ConfigKey::MinWidth => "min-width"@,
            ConfigKey::MinHeight => "min-height"@,
            ConfigKey::MaxWidth => "max-width"@,
            ConfigKey::MaxHeight => "max-height"@,
        }
    }

    pub fn as_str(self) -> (r: &'static str)
        ensures
            r@ == self.name(),
    {
        match self {
            ConfigKey::Width => "width",
            ConfigKey::Height => "height",
            ConfigKey::Title => "title",
            ConfigKey::Cap => "cap",
            ConfigKey::MinWidth => "min-width",
            ConfigKey::MinHeight => "min-height",
            ConfigKey::MaxWidth => "max-width",
            ConfigKey::MaxHeight => "max-height",
        }
    }
}

impl ConfigWarning {
    /// The message that the warning is logged with.
    pub open spec fn text(self) -> Seq<char> {
        match self {
            ConfigWarning::Unreadable => "Failed to read config file"@,
            ConfigWarning::Unparsable => "Failed to parse config file"@,
            ConfigWarning::MissingSection => "Failed to read structure 'window' from config file"@,
            ConfigWarning::BadField(key) => "Failed to read property '"@ + key.name()
                + "' in 'window' from config file"@,
        }
    }

    pub fn message(self) -> (r: String)
        ensures
            r@ == self.text(),
    {
        match self {
            ConfigWarning::Unreadable => "Failed to read config file".to_owned(),
            ConfigWarning::Unparsable => "Failed to parse config file".to_owned(),
            ConfigWarning::MissingSection => "Failed to read structure 'window' from config file".to_owned(),
            ConfigWarning::BadField(key) => {
                let mut text = "Failed to read property '".to_owned();
                text.append(key.as_str());
                text.append("' in 'window' from config file");
                text
            },
        }
    }
}

/// The fields of the `window` table.
pub struct WindowFields {
    pub width: Field,
    pub height: Field,
    pub title: Field,
    pub cap: Field,
    pub min_width: Field,
    pub min_height: Field,
    pub max_width: Field,
    pub max_height: Field,
}

/// The fields of the `window` table, each by its view.
pub struct WindowFieldsView {
    pub width: FieldView,
    pub height: FieldView,
    pub title: FieldView,
    pub cap: FieldView,
    pub min_width: FieldView,
    pub min_height: FieldView,
    pub max_width: FieldView,
    pub max_height: FieldView,
}

impl View for WindowFields {
    type V = WindowFieldsView;

    open spec fn view(&self) -> WindowFieldsView {
        WindowFieldsView {
            width: self.width@,
            height: self.height@,
            title: self.title@,
            cap: self.cap@,
            min_width: self.min_width@,
            min_height: self.min_height@,
            max_width: self.max_width@,
            max_height: self.max_height@,
        }
    }
}

/// What a configuration text comes down to.
pub enum ConfigSource {
    /// The configuration could not be read at all.
    Unreadable,
    /// The text is no TOML document; the message says why.
    Unparsable(String),
    /// The document has no `window` entry.
    NoSection,
    /// The fields under `window`.
    Section(WindowFields),
}

/// A source, with its fields by their views.
pub enum ConfigSourceView {
    Unreadable,
    Unparsable(Seq<char>),
    NoSection,
    Section(WindowFieldsView),
}

impl View for ConfigSource {
    type V = ConfigSourceView;

    open spec fn view(&self) -> ConfigSourceView {
        match self {
            ConfigSource::Unreadable => ConfigSourceView::Unreadable,
            ConfigSource::Unparsable(why) => ConfigSourceView::Unparsable(why@),
            ConfigSource::NoSection => ConfigSourceView::NoSection,
            ConfigSource::Section(fields) => ConfigSourceView::Section(fields@),
        }
    }
}

/// What a window is created with.
pub struct WindowConfig {
    pub width: u32,
    pub height: u32,
    pub title: String,
    pub update_cap: UpdateCap,
    pub min_width: Option<u32>,
    pub min_height: Option<u32>,
    pub max_width: Option<u32>,
    pub max_height: Option<u32>,
}

/// A configuration with its title as a sequence of characters.
pub struct WindowConfigView {
    pub width: u32,
    pub height: u32,
    pub title: Seq<char>,
    pub update_cap: UpdateCap,
    pub min_width: Option<u32>,
    pub min_height: Option<u32>,
    pub max_width: Option<u32>,
    pub max_height: Option<u32>,
}

impl View for WindowConfig {
    type V = WindowConfigView;

    open spec fn view(&self) -> WindowConfigView {
        WindowConfigView {
            width: self.width,
            height: self.height,
            title: self.title@,
            update_cap: self.update_cap,
            min_width: self.min_width,
            min_height: self.min_height,
            max_width: self.max_width,
            max_height: self.max_height,
        }
    }
}

/// A configuration and the warnings that reading it gave, in the order of
/// the fields.
pub struct ConfigReport {
    pub config: WindowConfig,
    pub warnings: Vec<ConfigWarning>,
    /// Why the text is no TOML document, where it is none.
    pub detail: Option<String>,
}

/// Why a source is no TOML document, where it is none.
pub open spec fn detail_of(source: ConfigSourceView) -> Option<Seq<char>> {
    match source {
        ConfigSourceView::Unparsable(why) => Some(why),
        _ => None,
    }
}

/// What the report says of a text with too many characters that open a
/// level.
pub open spec fn too_deep() -> Seq<char> {
    "the text is nested too deep"@
}

/// The configuration in which every field has its default: 800 by 600,
/// titled "Title", paced by vsync, without size limits.
pub open spec fn default_config() -> WindowConfigView {
    WindowConfigView {
        width: 800,
        height: 600,
        title: "Title"@,
        update_cap: UpdateCap::Vsync,
        min_width: None,
        min_height: None,
        max_width: None,
        max_height: None,
    }
}

/// The code of a character with the upper-case ASCII letters lowered.
pub open spec fn fold_code(c: char) -> u32 {
    let code = c as u32;
    if 65 <= code <= 90 {
        (code + 32) as u32
    } else {
        code
    }
}

/// Whether two texts are the same up to the case of their ASCII letters.
pub open spec fn same_ignoring_case(a: Seq<char>, b: Seq<char>) -> bool {
    &&& a.len() == b.len()
    &&& forall|i: int| 0 <= i < a.len() ==> fold_code(a[i]) == fold_code(b[i])
}

/// A width or a height: any integer, reduced to 32 bits.
pub open spec fn size_of(field: FieldView) -> Option<u32> {
    match field {
        FieldView::Integer(v) => Some(v as u32),
        _ => None,
    }
}

/// A title: any string.
pub open spec fn title_of(field: FieldView) -> Option<Seq<char>> {
    match field {
        FieldView::Text(s) => Some(s),
        _ => None,
    }
}

/// A pacing policy: "vsync" or "unlimited" in any case, or a positive
/// number of frames per second that fits 32 bits.
pub open spec fn cap_of(field: FieldView) -> Option<UpdateCap> {
    match field {
        FieldView::Text(s) => if same_ignoring_case(s, "vsync"@) {
            Some(UpdateCap::Vsync)
        } else if same_ignoring_case(s, "unlimited"@) {
            Some(UpdateCap::Unlimited)
        } else {
            None
        },
        FieldView::Integer(v) => if 0 < v <= u32::MAX {
            Some(UpdateCap::Cap(v as u32))
        } else {
            None
        },
        _ => None,
    }
}

/// A size limit: "unset" in any case, or a non-negative integer, reduced to
/// 32 bits.
pub open spec fn limit_of(field: FieldView) -> Option<Option<u32>> {
    match field {
        FieldView::Text(s) => if same_ignoring_case(s, "unset"@) {
            Some(None)
        } else {
            None
        },
        FieldView::Integer(v) => if v >= 0 {
            Some(Some(v as u32))
        } else {
            None
        },
        _ => None,
    }
}

/// The value read, or the default where nothing usable was read.
pub open spec fn value_or<T>(read: Option<T>, default: T) -> T {
    match read {
        Some(value) => value,
        None => default,
    }
}

/// The warning for a field, where nothing usable was read.
pub open spec fn flag<T>(read: Option<T>, key: ConfigKey) -> Seq<ConfigWarning> {
    match read {
        Some(_) => Seq::empty(),
        None => seq![ConfigWarning::BadField(key)],
    }
}

/// The configuration that a source gives: each field on its own, with its
/// default where it is missing or malformed, and every default where there
/// is no `window` table to read.
pub open spec fn config_of(source: ConfigSourceView) -> WindowConfigView {
    match source {
        ConfigSourceView::Section(fields) => WindowConfigView {
            width: value_or(size_of(fields.width), 800),
            height: value_or(size_of(fields.height), 600),
            title: value_or(title_of(fields.title), "Title"@),
            update_cap: value_or(cap_of(fields.cap), UpdateCap::Vsync),
            min_width: value_or(limit_of(fields.min_width), None),
            min_height: value_or(limit_of(fields.min_height), None),
            max_width: value_or(limit_of(fields.max_width), None),
            max_height: value_or(limit_of(fields.max_height), None),
        },
        _ => default_config(),
    }
}

/// The warnings that a source gives, in the order of the fields.
pub open spec fn warnings_of(source: ConfigSourceView) -> Seq<ConfigWarning> {
    match source {
        ConfigSourceView::Unreadable => seq![ConfigWarning::Unreadable],
        ConfigSourceView::Unparsable(_) => seq![ConfigWarning::Unparsable],
        ConfigSourceView::NoSection => seq![ConfigWarning::MissingSection],
        ConfigSourceView::Section(fields) => flag(size_of(fields.width), ConfigKey::Width) + flag(
            size_of(fields.height),
            ConfigKey::Height,
        ) + flag(title_of(fields.title), ConfigKey::Title) + flag(
            cap_of(fields.cap),
            ConfigKey::Cap,
        ) + flag(limit_of(fields.min_width), ConfigKey::MinWidth) + flag(
            limit_of(fields.min_height),
            ConfigKey::MinHeight,
        ) + flag(limit_of(fields.max_width), ConfigKey::MaxWidth) + flag(
            limit_of(fields.max_height),
            ConfigKey::MaxHeight,
        ),
    }
}

/// What the document holds under `key` of the table `table`.
pub open spec fn field_of(table: toml::Value, key: Seq<char>) -> FieldView {
    match toml_entry(table, key) {
        Some(value) => toml_shape(value),
        None => FieldView::Missing,
    }
}

/// What a configuration comes down to, where `None` stands for a text that
/// could not be read.
pub open spec fn source_of_file(text: Option<Seq<char>>) -> ConfigSourceView {
    match text {
        Some(text) => source_of(text),
        None => ConfigSourceView::Unreadable,
    }
}

/// What a text that is shallow comes down to.
pub open spec fn parsed_source_of(text: Seq<char>) -> ConfigSourceView {
    match toml_document(text) {
        Err(error) => ConfigSourceView::Unparsable(toml_error_text(error)),
        Ok(doc) => match toml_entry(doc, "window"@) {
            None => ConfigSourceView::NoSection,
            Some(table) => ConfigSourceView::Section(
                WindowFieldsView {
                    width: field_of(table, "width"@),
                    height: field_of(table, "height"@),
                    title: field_of(table, "title"@),
                    cap: field_of(table, "cap"@),
                    min_width: field_of(table, "min-width"@),
                    min_height: field_of(table, "min-height"@),
                    max_width: field_of(table, "max-width"@),
                    max_height: field_of(table, "max-height"@),
                },
            ),
        },
    }
}

/// What a configuration text comes down to. A text that is not shallow is
/// not handed to the parser and counts as no TOML document.
pub open spec fn source_of(text: Seq<char>) -> ConfigSourceView {
    if shallow(text) {
        parsed_source_of(text)
    } else {
        ConfigSourceView::Unparsable(too_deep())
    }
}

/// Tests whether a text is shallow.
pub fn is_shallow(text: &str) -> (r: bool)
    ensures
        r == shallow(text@),
{
    let bytes = text.as_bytes();
    let mut count: usize = 0;
    let mut i: usize = 0;
    assert(bytes@.take(0).len() == 0);
    while i < bytes.len()
        invariant
            i <= bytes@.len(),
            count <= i,
            count == openers(bytes@.take(i as int)),
        decreases bytes.len() - i,
    {
        let byte = bytes[i];
        proof {
            let upto = bytes@.take(i + 1);
            assert(upto.drop_last() =~= bytes@.take(i as int));
            assert(upto.last() == byte);
        }
        if byte == 0x5B || byte == 0x7B || byte == 0x2E {
            count += 1;
        }
        i += 1;
    }
    assert(bytes@.take(bytes@.len() as int) =~= bytes@);
    count <= MAX_OPENERS
}

fn fold(c: char) -> (r: u32)
    ensures
        r == fold_code(c),
{
    let code: u32 = c as u32;
    if 65 <= code && code <= 90 {
        code + 32
    } else {
        code
    }
}

/// Compares two texts up to the case of their ASCII letters.
pub fn eq_ignore_ascii_case(a: &str, b: &str) -> (r: bool)
    ensures
        r == same_ignoring_case(a@, b@),
{
    let n = a.unicode_len();
    if n != b.unicode_len() {
        return false;
    }
    let mut i: usize = 0;
    while i < n
        invariant
            i <= n,
            n == a@.len(),
            n == b@.len(),
            forall|j: int| 0 <= j < i ==> fold_code(a@[j]) == fold_code(b@[j]),
        decreases n - i,
    {
        if fold(a.get_char(i)) != fold(b.get_char(i)) {
            return false;
        }
        i += 1;
    }
    true
}

fn read_size(field: &Field) -> (r: Option<u32>)
    ensures
        r == size_of(field@),
{
    match field {
        Field::Integer(v) => Some(
            #[verifier::truncate]
            (*v as u32),
        ),
        _ => None,
    }
}

fn read_cap(field: &Field) -> (r: Option<UpdateCap>)
    ensures
        r == cap_of(field@),
        r matches Some(cap) ==> cap.wf(),
{
    match field {
        Field::Text(s) => {
            if eq_ignore_ascii_case(s.as_str(), "vsync") {
                Some(UpdateCap::Vsync)
            } else if eq_ignore_ascii_case(s.as_str(), "unlimited") {
                Some(UpdateCap::Unlimited)
            } else {
                None
            }
        },
        Field::Integer(v) => {
            if 0 < *v && *v <= 0xFFFF_FFFF {
                Some(UpdateCap::Cap(*v as u32))
            } else {
                None
            }
        },
        _ => None,
    }
}

fn read_limit(field: &Field) -> (r: Option<Option<u32>>)
    ensures
        r == limit_of(field@),
{
    match field {
        Field::Text(s) => {
            if eq_ignore_ascii_case(s.as_str(), "unset") {
                Some(None)
            } else {
                None
            }
        },
        Field::Integer(v) => {
            if *v >= 0 {
                Some(Some(
                    #[verifier::truncate]
                    (*v as u32),
                ))
            } else {
                None
            }
        },
        _ => None,
    }
}

fn read_title(field: Field) -> (r: Option<String>)
    ensures
        match r {
            Some(text) => title_of(field@) == Some(text@),
            None => title_of(field@) is None,
        },
{
    match field {
        Field::Text(text) => Some(text),
        _ => None,
    }
}

fn pick<T>(read: Option<T>, default: T) -> (r: T)
    ensures
        r == value_or(read, default),
{
    match read {
        Some(value) => value,
        None => default,
    }
}

fn note<T>(read: &Option<T>, key: ConfigKey, warnings: &mut Vec<ConfigWarning>)
    ensures
        final(warnings)@ == old(warnings)@ + flag(*read, key),
{
    if read.is_none() {
        warnings.push(ConfigWarning::BadField(key));
        assert(warnings@ =~= old(warnings)@ + flag(*read, key));
    } else {
        assert(warnings@ =~= old(warnings)@ + flag(*read, key));
    }
}

fn read_field(table: &toml::Value, key: &str) -> (r: Field)
    ensures
        r@ == field_of(*table, key@),
{
    match entry(table, key) {
        Some(value) => shape(value),
        None => Field::Missing,
    }
}

impl Default for WindowConfig {
    fn default() -> (r: WindowConfig)
        ensures
            r@ == default_config(),
    {
        WindowConfig {
            width: 800,
            height: 600,
            title: "Title".to_owned(),
            update_cap: UpdateCap::Vsync,
            min_width: None,
            min_height: None,
            max_width: None,
            max_height: None,
        }
    }
}

impl WindowConfig {
    /// Reads the fields of a source, each on its own: a field that is
    /// missing or malformed keeps its default and gives a warning.
    pub fn from_source(source: ConfigSource) -> (r: ConfigReport)
        ensures
            r.config@ == config_of(source@),
            r.warnings@ == warnings_of(source@),
            r.config.update_cap.wf(),
            match r.detail {
                Some(why) => detail_of(source@) == Some(why@),
                None => detail_of(source@) is None,
            },
    {
        let mut detail: Option<String> = None;
        let mut config = WindowConfig::default();
        let mut warnings: Vec<ConfigWarning> = Vec::new();
        match source {
            ConfigSource::Unreadable => {
                warnings.push(ConfigWarning::Unreadable);
                assert(warnings@ =~= warnings_of(source@));
            },
            ConfigSource::Unparsable(why) => {
                detail = Some(why);
                warnings.push(ConfigWarning::Unparsable);
                assert(warnings@ =~= warnings_of(source@));
            },
            ConfigSource::NoSection => {
                warnings.push(ConfigWarning::MissingSection);
                assert(warnings@ =~= warnings_of(source@));
            },
            ConfigSource::Section(fields) => {
                let ghost f = fields@;
                let width = read_size(&fields.width);
                let height = read_size(&fields.height);
                let cap = read_cap(&fields.cap);
                let min_width = read_limit(&fields.min_width);
                let min_height = read_limit(&fields.min_height);
                let max_width = read_limit(&fields.max_width);
                let max_height = read_limit(&fields.max_height);
                let title = read_title(fields.title);
                note(&width, ConfigKey::Width, &mut warnings);
                assert(warnings@ =~= flag(size_of(f.width), ConfigKey::Width));
                note(&height, ConfigKey::Height, &mut warnings);
                note(&title, ConfigKey::Title, &mut warnings);
                note(&cap, ConfigKey::Cap, &mut warnings);
                note(&min_width, ConfigKey::MinWidth, &mut warnings);
                note(&min_height, ConfigKey::MinHeight, &mut warnings);
                note(&max_width, ConfigKey::MaxWidth, &mut warnings);
                note(&max_height, ConfigKey::MaxHeight, &mut warnings);
                config.width = pick(width, 800);
                config.height = pick(height, 600);
                config.update_cap = pick(cap, UpdateCap::Vsync);
                config.min_width = pick(min_width, None);
                config.min_height = pick(min_height, None);
                config.max_width = pick(max_width, None);
                config.max_height = pick(max_height, None);
                match title {
                    Some(text) => {
                        config.title = text;
                    },
                    None => {},
                }
            },
        }
        ConfigReport { config, warnings, detail }
    }

    /// Brings a configuration text down to the fields of its `window` table.
    pub fn read_source(text: &str) -> (r: ConfigSource)
        ensures
            r@ == source_of(text@),
    {
        if !is_shallow(text) {
            return ConfigSource::Unparsable("the text is nested too deep".to_owned());
        }
        match parse_document(text) {
            Err(error) => ConfigSource::Unparsable(error_text(&error)),
            Ok(doc) => match entry(&doc, "window") {
                None => ConfigSource::NoSection,
                Some(table) => ConfigSource::Section(
                    WindowFields {
                        width: read_field(table, "width"),
                        height: read_field(table, "height"),
                        title: read_field(table, "title"),
                        cap: read_field(table, "cap"),
                        min_width: read_field(table, "min-width"),
                        min_height: read_field(table, "min-height"),
                        max_width: read_field(table, "max-width"),
                        max_height: read_field(table, "max-height"),
                    },
                ),
            },
        }
    }

    /// Reads the window configuration from a TOML text.
    pub fn parse(text: &str) -> (r: ConfigReport)
        ensures
            r.config@ == config_of(source_of(text@)),
            r.warnings@ == warnings_of(source_of(text@)),
            r.config.update_cap.wf(),
            match r.detail {
                Some(why) => detail_of(source_of(text@)) == Some(why@),
                None => detail_of(source_of(text@)) is None,
            },
    {
        WindowConfig::from_source(WindowConfig::read_source(text))
    }

    /// Reads the window configuration from the text of the configuration
    /// file, or from `None` where the file could not be read: then every
    /// field has its default.
    pub fn load(text: Option<&str>) -> (r: ConfigReport)
        ensures
            r.config@ == config_of(
                source_of_file(
                    match text {
                        Some(text) => Some(text@),
                        None => None,
                    },
                ),
            ),
            r.warnings@ == warnings_of(
                source_of_file(
                    match text {
                        Some(text) => Some(text@),
                        None => None,
                    },
                ),
            ),
            match r.detail {
                Some(why) => detail_of(
                    source_of_file(
                        match text {
                            Some(text) => Some(text@),
                            None => None,
                        },
                    ),
                ) == Some(why@),
                None => detail_of(
                    source_of_file(
                        match text {
                            Some(text) => Some(text@),
                            None => None,
                        },
                    ),
                ) is None,
            },
            r.config.update_cap.wf(),
    {
        match text {
            Some(text) => WindowConfig::parse(text),
            None => WindowConfig::from_source(ConfigSource::Unreadable),
        }
    }
}

} // verus!
