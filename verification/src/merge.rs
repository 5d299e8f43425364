//! Merging one provider's section over that provider's defaults, field by
//! field. A field the section omits keeps its default; a field it holds takes
//! the document's value; a field of the wrong kind is an error, never a
//! default.

use crate::clients::ProviderSettings;
use crate::config::{ConfigError, ConfigErrorView};
use crate::document::{Entry, EntryView, Section, SectionView};
use crate::text::join;
use crate::views::result_view;
use vstd::prelude::*;
use vstd::string::*;

verus! {

/// The error for a field that is present but does not hold what it must.
pub open spec fn mismatch(
    section: Seq<char>,
    key: Seq<char>,
    expected: Seq<char>,
) -> ConfigErrorView {
    ConfigErrorView::SerializationError(section + "."@ + key + ": expected "@ + expected)
}

/// The error for a provider's name under which something other than a table stands.
pub open spec fn not_a_table(section: Seq<char>) -> ConfigErrorView {
    ConfigErrorView::SerializationError(section + ": expected a table"@)
}

/// A text field after the merge: the default where the document omits it, the
/// document's string where it has one, an error for a value of any other kind.
pub open spec fn merged_text(
    entry: EntryView,
    default: Seq<char>,
    section: Seq<char>,
    key: Seq<char>,
) -> Result<Seq<char>, ConfigErrorView> {
    match entry {
        EntryView::Absent => Ok(default),
        EntryView::Text(text) => Ok(text),
        _ => Err(mismatch(section, key, "a string"@)),
    }
}

/// A field of seconds after the merge: the default where the document omits
/// it, the document's integer where it has one that is not negative, an error
/// for a negative integer and for a value of any other kind.
pub open spec fn merged_seconds(
    entry: EntryView,
    default: u64,
    section: Seq<char>,
    key: Seq<char>,
) -> Result<u64, ConfigErrorView> {
    match entry {
        EntryView::Absent => Ok(default),
        EntryView::Integer(number) if 0 <= number <= u64::MAX => Ok(number as u64),
        _ => Err(mismatch(section, key, "a non-negative integer"@)),
    }
}

/// A provider's settings after the merge of its section over its defaults.
/// The first field that is wrong, in the order `api_url`, `default_model`,
/// `timeout_secs`, gives the error.
pub open spec fn merged_settings(
    section: SectionView,
    defaults: ProviderSettings,
    name: Seq<char>,
) -> Result<ProviderSettings, ConfigErrorView> {
    match section {
        SectionView::Absent => Ok(defaults),
        SectionView::Malformed => Err(not_a_table(name)),
        SectionView::Present(fields) => match merged_text(
            fields.api_url,
            defaults.api_url,
            name,
            "api_url"@,
        ) {
            Err(error) => Err(error),
            Ok(api_url) => match merged_text(
                fields.default_model,
                defaults.default_model,
                name,
                "default_model"@,
            ) {
                Err(error) => Err(error),
                Ok(default_model) => match merged_seconds(
                    fields.timeout_secs,
                    defaults.timeout_secs,
                    name,
                    "timeout_secs"@,
                ) {
                    Err(error) => Err(error),
                    Ok(timeout_secs) => Ok(
                        ProviderSettings { api_url, default_model, timeout_secs },
                    ),
                },
            },
        },
    }
}

fn mismatch_error(section: &str, key: &str, expected: &str) -> (error: ConfigError)
    ensures
        error@ == mismatch(section@, key@, expected@),
{
    let mut detail = join(section, ".");
    detail.append(key);
    detail.append(": expected ");
    detail.append(expected);
    ConfigError::SerializationError(detail)
}

/// Merges one text field over its default.
pub fn merge_text(entry: &Entry, default: String, section: &str, key: &str) -> (r: Result<
    String,
    ConfigError,
>)
    ensures
        result_view(r) == merged_text(entry@, default@, section@, key@),
{
    match entry {
        Entry::Absent => Ok(default),
        Entry::Text(text) => Ok(text.clone()),
        _ => Err(mismatch_error(section, key, "a string")),
    }
}

/// Merges one field of seconds over its default.
pub fn merge_seconds(entry: &Entry, default: u64, section: &str, key: &str) -> (r: Result<
    u64,
    ConfigError,
>)
    ensures
        result_view(r) == merged_seconds(entry@, default, section@, key@),
{
    match entry {
        Entry::Absent => Ok(default),
        Entry::Integer(number) => {
            if *number >= 0 {
                Ok(*number as u64)
            } else {
                Err(mismatch_error(section, key, "a non-negative integer"))
            }
        },
        _ => Err(mismatch_error(section, key, "a non-negative integer")),
    }
}

/// Merges a provider's section over its defaults, field by field.
pub fn merge_settings(
    section: &Section,
    name: &str,
    api_url: String,
    default_model: String,
    timeout_secs: u64,
) -> (r: Result<(String, String, u64), ConfigError>)
    ensures
        match r {
            Ok(merged) => merged_settings(
                section@,
                ProviderSettings { api_url: api_url@, default_model: default_model@, timeout_secs },
                name@,
            ) == Ok::<ProviderSettings, ConfigErrorView>(
                ProviderSettings {
                    api_url: merged.0@,
                    default_model: merged.1@,
                    timeout_secs: merged.2,
                },
            ),
            Err(error) => merged_settings(
                section@,
                ProviderSettings { api_url: api_url@, default_model: default_model@, timeout_secs },
                name@,
            ) == Err::<ProviderSettings, ConfigErrorView>(error@),
        },
{
    match section {
        Section::Absent => Ok((api_url, default_model, timeout_secs)),
        Section::Malformed => Err(
            ConfigError::SerializationError(join(name, ": expected a table")),
        ),
        Section::Present(fields) => {
            let api_url = merge_text(&fields.api_url, api_url, name, "api_url")?;
            let default_model = merge_text(
                &fields.default_model,
                default_model,
                name,
                "default_model",
            )?;
            let timeout_secs = merge_seconds(
                &fields.timeout_secs,
                timeout_secs,
                name,
                "timeout_secs",
            )?;
            Ok((api_url, default_model, timeout_secs))
        },
    }
}

} // verus!
