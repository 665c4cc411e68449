//! The regular expressions of the directives, by name.

use crate::text::same_text;
use vstd::prelude::*;

verus! {

/// The regular expression of the directive or line called `name`, as text.
pub open spec fn pattern_source(name: Seq<char>) -> Option<Seq<char>> {
    if name == "import"@ {
        Some("^@import\\s+(=)?\\s*(?:\"([^\"]+)\"|([^\\s\"{}|[\\]]+))"@)
    } else if name == "format"@ {
        Some("^@format\\(\"([^\"]*)\",\\s*(.+)\\)$"@)
    } else if name == "if_elif_else"@ {
        Some("(?s)@if\\s*\\((?P<if_cond>[^)]+)\\)\\s*\\{(?P<if_body>(?:[^{}]|\\{[^{}]*\\})*)\\}(?:\\s*@elif\\s*\\([^)]+\\)\\s*\\{(?:[^{}]|\\{[^{}]*\\})*\\})*(?:\\s*@else\\s*\\{(?:[^{}]|\\{[^{}]*\\})*\\})?"@)
    } else if name == "export"@ {
        Some("^@export\\s+(.+)$"@)
    } else if name == "export_multiline"@ {
        Some("^@export\\s*=?\\s*(@?\\()\\s*$"@)
    } else if name == "export_array"@ {
        Some("^@export\\s*=?\\s*\\[\\s*$"@)
    } else if name == "export_block"@ {
        Some("^@export\\s*=?\\s*\\{\\s*$"@)
    } else if name == "var"@ {
        Some("^\\s*(?<!\\\\)\\$([\\p{L}\\d._-]+)\\s*=?\\s*(.+)$"@)
    } else if name == "block_start"@ {
        Some("^\\s*([\\p{L}\\d._-]+)\\s*(?:>\\s*([\\p{L}\\d._-]+)\\s*)?=?\\s*\\{\\s*$"@)
    } else if name == "multi_key"@ {
        Some("^\\s*\\[([\\p{L}\\d\\s,.*_-]+)\\]\\s*=?\\s*(.+)$"@)
    } else if name == "multiline_start"@ {
        Some("^\\s*([\\p{L}\\d._-]+)\\s*=?\\s*(@?\\()\\s*$"@)
    } else if name == "array_start"@ {
        Some("^\\s*([\\p{L}\\d._-]+)\\s*=?\\s*\\[\\s*$"@)
    } else if name == "find_keys"@ {
        Some("(?:^|\\s+)([\\p{L}\\d._-]+|\\[[\\p{L}\\d\\s,.*_-]+\\]|@import(?:\\.\\.\\.)?\\s*=)"@)
    } else if name == "number"@ {
        Some("^-?\\d+(\\.\\d+)?$"@)
    } else {
        None
    }
}

/// Looks up the regular expression called `name`: the names are `import`,
/// `format`, `if_elif_else`, `export`, `export_multiline`, `export_array`,
/// `export_block`, `var`, `block_start`, `multi_key`, `multiline_start`,
/// `array_start`, `find_keys` and `number`.
pub fn regex_source(name: &str) -> (r: Option<&'static str>)
    ensures
        match r {
            Some(pattern) => pattern_source(name@) == Some(pattern@),
            None => pattern_source(name@) is None,
        },
{
    if same_text(name, "import") {
        Some("^@import\\s+(=)?\\s*(?:\"([^\"]+)\"|([^\\s\"{}|[\\]]+))")
    } else if same_text(name, "format") {
        Some("^@format\\(\"([^\"]*)\",\\s*(.+)\\)$")
    } else if same_text(name, "if_elif_else") {
        Some("(?s)@if\\s*\\((?P<if_cond>[^)]+)\\)\\s*\\{(?P<if_body>(?:[^{}]|\\{[^{}]*\\})*)\\}(?:\\s*@elif\\s*\\([^)]+\\)\\s*\\{(?:[^{}]|\\{[^{}]*\\})*\\})*(?:\\s*@else\\s*\\{(?:[^{}]|\\{[^{}]*\\})*\\})?")
    } else if same_text(name, "export") {
        Some("^@export\\s+(.+)$")
    } else if same_text(name, "export_multiline") {
        Some("^@export\\s*=?\\s*(@?\\()\\s*$")
    } else if same_text(name, "export_array") {
        Some("^@export\\s*=?\\s*\\[\\s*$")
    } else if same_text(name, "export_block") {
        Some("^@export\\s*=?\\s*\\{\\s*$")
    } else if same_text(name, "var") {
        Some("^\\s*(?<!\\\\)\\$([\\p{L}\\d._-]+)\\s*=?\\s*(.+)$")
    } else if same_text(name, "block_start") {
        Some("^\\s*([\\p{L}\\d._-]+)\\s*(?:>\\s*([\\p{L}\\d._-]+)\\s*)?=?\\s*\\{\\s*$")
    } else if same_text(name, "multi_key") {
        Some("^\\s*\\[([\\p{L}\\d\\s,.*_-]+)\\]\\s*=?\\s*(.+)$")
    } else if same_text(name, "multiline_start") {
        Some("^\\s*([\\p{L}\\d._-]+)\\s*=?\\s*(@?\\()\\s*$")
    } else if same_text(name, "array_start") {
        Some("^\\s*([\\p{L}\\d._-]+)\\s*=?\\s*\\[\\s*$")
    } else if same_text(name, "find_keys") {
        Some("(?:^|\\s+)([\\p{L}\\d._-]+|\\[[\\p{L}\\d\\s,.*_-]+\\]|@import(?:\\.\\.\\.)?\\s*=)")
    } else if same_text(name, "number") {
        Some("^-?\\d+(\\.\\d+)?$")
    } else {
        None
    }
}

} // verus!
