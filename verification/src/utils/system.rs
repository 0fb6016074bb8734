//! The facts about the system that the wizard starts from.

use vstd::prelude::*;
use vstd::string::*;
use crate::error::{InstallerError, InstallerErrorView};
use crate::installers::protocol::{after, find_from, has_prefix, index_from, lemma_index_from, starts_with};
use crate::utils::text::{chars_of, string_of_range};

verus! {

/// The value reported for a field that the description of the system does
/// not give.
pub open spec fn unknown() -> Seq<char> {
    "Unknown"@
}

/// The least index at or behind `from` at which `s` holds no double quote,
/// or `to` where it holds nothing else before `to`.
pub open spec fn skip_quotes(s: Seq<char>, from: int, to: int) -> int
    decreases to - from,
{
    if from >= to {
        to
    } else if s[from] != '"' {
        from
    } else {
        skip_quotes(s, from + 1, to)
    }
}

/// The least end, at or before `to` and not before `from`, behind which
/// `s` holds nothing but double quotes up to `to`.
pub open spec fn skip_quotes_back(s: Seq<char>, from: int, to: int) -> int
    decreases to - from,
{
    if to <= from {
        from
    } else if s[to - 1] != '"' {
        to
    } else {
        skip_quotes_back(s, from, to - 1)
    }
}

/// The text without the double quotes at its start and at its end.
pub open spec fn unquoted(s: Seq<char>) -> Seq<char> {
    let start = skip_quotes(s, 0, s.len() as int);
    let end = skip_quotes_back(s, start, s.len() as int);
    s.subrange(start, end)
}

/// [`skip_quotes`] stays between `from` and `to`.
proof fn lemma_skip_quotes(s: Seq<char>, from: int, to: int)
    requires
        from <= to,
    ensures
        from <= skip_quotes(s, from, to) <= to,
    decreases to - from,
{
    if from < to && s[from] == '"' {
        lemma_skip_quotes(s, from + 1, to);
    }
}

/// [`skip_quotes_back`] stays between `from` and `to`.
proof fn lemma_skip_quotes_back(s: Seq<char>, from: int, to: int)
    requires
        from <= to,
    ensures
        from <= skip_quotes_back(s, from, to) <= to,
    decreases to - from,
{
    if from < to && s[to - 1] == '"' {
        lemma_skip_quotes_back(s, from, to - 1);
    }
}

/// The end of the line that starts at `from`: the index of the next line
/// feed, or the length of the text where none follows.
pub open spec fn line_end(s: Seq<char>, from: int) -> int {
    index_from(s, '\n', from)
}

/// The line of `s` that starts at `from`, without the line feed that ends
/// it and without a carriage return before that line feed.
pub open spec fn line_at(s: Seq<char>, from: int) -> Seq<char> {
    let end = line_end(s, from);
    if end < s.len() && from < end && s[end - 1] == '\r' {
        s.subrange(from, end - 1)
    } else {
        s.subrange(from, end)
    }
}

/// The value that a line gives to `field`: the line is the field's name,
/// an equals sign and the value; double quotes around the value do not
/// count. A line of another shape, or with nothing left as its value,
/// gives none.
pub open spec fn field_value(line: Seq<char>, field: Seq<char>) -> Option<Seq<char>> {
    let key = field + seq!['='];
    if has_prefix(line, key) && unquoted(after(line, key.len())).len() > 0 {
        Some(unquoted(after(line, key.len())))
    } else {
        None
    }
}

/// The value of `field` in the lines of `s` from index `from` on: that of
/// the first line that gives one, or [`unknown`] where no line does.
pub open spec fn field_from(s: Seq<char>, field: Seq<char>, from: int) -> Seq<char>
    decreases s.len() + 1 - from,
{
    if from < 0 || from >= s.len() {
        unknown()
    } else {
        match field_value(line_at(s, from), field) {
            Some(value) => value,
            None => {
                proof {
                    lemma_index_from(s, '\n', from);
                }
                field_from(s, field, line_end(s, from) + 1)
            },
        }
    }
}

/// The value of `field` in a description of the system.
pub open spec fn os_release_field(content: Seq<char>, field: Seq<char>) -> Seq<char> {
    field_from(content, field, 0)
}

/// The facts about the system that the wizard starts from.
#[derive(Debug, PartialEq, Eq)]
pub struct SystemInfo {
    pub os_name: String,
    pub os_version: String,
    pub panel_installed: bool,
    pub wings_installed: bool,
}

/// The mathematical content of a [`SystemInfo`].
pub struct SystemInfoView {
    pub os_name: Seq<char>,
    pub os_version: Seq<char>,
    pub panel_installed: bool,
    pub wings_installed: bool,
}

impl View for SystemInfo {
    type V = SystemInfoView;

    open spec fn view(&self) -> SystemInfoView {
        SystemInfoView {
            os_name: self.os_name@,
            os_version: self.os_version@,
            panel_installed: self.panel_installed,
            wings_installed: self.wings_installed,
        }
    }
}

impl Clone for SystemInfo {
    fn clone(&self) -> (copy: SystemInfo)
        ensures
            copy@ == self@,
    {
        SystemInfo {
            os_name: self.os_name.clone(),
            os_version: self.os_version.clone(),
            panel_installed: self.panel_installed,
            wings_installed: self.wings_installed,
        }
    }
}

/// The facts that a description of the system and the presence of the
/// components give. The name of the system is the field `ID`, its version
/// the field `VERSION_ID`.
pub open spec fn detected(
    content: Seq<char>,
    panel_installed: bool,
    wings_installed: bool,
) -> SystemInfoView {
    SystemInfoView {
        os_name: os_release_field(content, "ID"@),
        os_version: os_release_field(content, "VERSION_ID"@),
        panel_installed,
        wings_installed,
    }
}

/// The error with which detection fails where the description of the
/// system could not be read, for the given reason.
pub open spec fn unreadable(reason: Seq<char>) -> InstallerErrorView {
    InstallerErrorView::SystemDetection("Failed to read /etc/os-release: "@ + reason)
}

/// The title that names the system.
pub open spec fn menu_title(info: SystemInfoView) -> Seq<char> {
    "OS: "@ + info.os_name + " "@ + info.os_version
}

impl SystemInfo {
    /// Gathers the facts about the system from what was read of it: the
    /// description of the system, or the reason for which it could not be
    /// read, and whether each component is present.
    pub fn detect(
        os_release: Result<String, String>,
        panel_installed: bool,
        wings_installed: bool,
    ) -> (info: Result<SystemInfo, InstallerError>)
        ensures
            match os_release {
                Ok(content) => info is Ok && info->Ok_0@ == detected(
                    content@,
                    panel_installed,
                    wings_installed,
                ),
                Err(reason) => info is Err && info->Err_0@ == unreadable(reason@),
            },
    {
        match os_release {
            Ok(content) => {
                let os_name = SystemInfo::read_os_release_field(content.as_str(), "ID");
                let os_version = SystemInfo::read_os_release_field(content.as_str(), "VERSION_ID");
                Ok(SystemInfo { os_name, os_version, panel_installed, wings_installed })
            },
            Err(reason) => {
                let mut text = String::from_str("Failed to read /etc/os-release: ");
                text.append(reason.as_str());
                Err(InstallerError::SystemDetection(text))
            },
        }
    }

    /// Returns the value of `field` in a description of the system: that of
    /// the first line that gives the field a value, or `Unknown`.
    pub fn read_os_release_field(content: &str, field: &str) -> (value: String)
        ensures
            value@ == os_release_field(content@, field@),
    {
        let chars = chars_of(content);
        let mut key = chars_of(field);
        key.push('=');
        let mut from: usize = 0;
        while from < chars.len()
            invariant
                from <= chars.len(),
                chars@ == content@,
                key@ == field@ + seq!['='],
                os_release_field(content@, field@) == field_from(chars@, field@, from as int),
            decreases chars.len() - from,
        {
            let end = find_from(&chars, '\n', from);
            let stop = if end < chars.len() && from < end && chars[end - 1] == '\r' {
                end - 1
            } else {
                end
            };
            let ghost line = line_at(chars@, from as int);
            let line_chars = slice_of(&chars, from, stop);
            if starts_with(&line_chars, &key) {
                let (a, b) = unquoted_bounds(&line_chars, key.len());
                proof {
                    lemma_unquoted_after(line, key@.len() as int);
                }
                if a < b {
                    return string_of_range(&line_chars, a, b);
                }
            }
            proof {
                assert(field_from(chars@, field@, chars.len() + 1) == unknown());
            }
            if end == chars.len() {
                from = end;
            } else {
                from = end + 1;
            }
        }
        String::from_str("Unknown")
    }

    /// Returns the title that names the system.
    pub fn get_menu_title(&self) -> (title: String)
        ensures
            title@ == menu_title(self@),
    {
        let mut title = String::from_str("OS: ");
        title.append(self.os_name.as_str());
        title.append(" ");
        title.append(self.os_version.as_str());
        title
    }
}

/// Returns the characters of `chars` from `from` up to, not including,
/// `to`.
pub(crate) fn slice_of(chars: &Vec<char>, from: usize, to: usize) -> (part: Vec<char>)
    requires
        from <= to <= chars.len(),
    ensures
        part@ == chars@.subrange(from as int, to as int),
{
    let mut part: Vec<char> = Vec::new();
    let mut i: usize = from;
    while i < to
        invariant
            from <= i <= to <= chars.len(),
            part@ == chars@.subrange(from as int, i as int),
        decreases to - i,
    {
        part.push(chars[i]);
        i = i + 1;
    }
    part
}

/// Returns the bounds, in `chars`, of what is left of `chars` behind its
/// first `skip` characters once the double quotes at both ends are taken
/// off.
pub(crate) fn unquoted_bounds(chars: &Vec<char>, skip: usize) -> (bounds: (usize, usize))
    requires
        skip <= chars.len(),
    ensures
        bounds.0 == skip_quotes(chars@, skip as int, chars.len() as int),
        bounds.1 == skip_quotes_back(chars@, bounds.0 as int, chars.len() as int),
        skip <= bounds.0 <= bounds.1 <= chars.len(),
{
    let mut start: usize = skip;
    while start < chars.len() && chars[start] == '"'
        invariant
            skip <= start <= chars.len(),
            skip_quotes(chars@, skip as int, chars.len() as int) == skip_quotes(
                chars@,
                start as int,
                chars.len() as int,
            ),
        decreases chars.len() - start,
    {
        start = start + 1;
    }
    let mut end: usize = chars.len();
    while end > start && chars[end - 1] == '"'
        invariant
            start <= end <= chars.len(),
            skip_quotes_back(chars@, start as int, chars.len() as int) == skip_quotes_back(
                chars@,
                start as int,
                end as int,
            ),
        decreases end - start,
    {
        end = end - 1;
    }
    (start, end)
}

/// Taking the quotes off what is left of `s` behind its first `n`
/// characters gives the part of `s` between the bounds found in `s`
/// itself from `n` on.
proof fn lemma_unquoted_after(s: Seq<char>, n: int)
    requires
        0 <= n <= s.len(),
    ensures
        ({
            let start = skip_quotes(s, n, s.len() as int);
            let end = skip_quotes_back(s, start, s.len() as int);
            &&& n <= start <= end <= s.len()
            &&& unquoted(after(s, n as nat)) == s.subrange(start, end)
        }),
{
    let len = s.len() as int;
    let start = skip_quotes(s, n, len);
    lemma_skip_quotes(s, n, len);
    lemma_skip_quotes_back(s, start, len);
    lemma_skip_quotes_shift(s, n, n, len);
    lemma_skip_quotes_back_shift(s, n, start, len);
}

/// Skipping quotes in what is left of `s` behind its first `n` characters
/// finds the same place as skipping them in `s` itself.
proof fn lemma_skip_quotes_shift(s: Seq<char>, n: int, from: int, to: int)
    requires
        0 <= n <= from <= to <= s.len(),
    ensures
        skip_quotes(after(s, n as nat), from - n, to - n) == skip_quotes(s, from, to) - n,
    decreases to - from,
{
    if from < to && s[from] == '"' {
        lemma_skip_quotes_shift(s, n, from + 1, to);
    }
}

/// Skipping quotes backwards in what is left of `s` behind its first `n`
/// characters finds the same place as skipping them in `s` itself.
proof fn lemma_skip_quotes_back_shift(s: Seq<char>, n: int, from: int, to: int)
    requires
        0 <= n <= from <= to <= s.len(),
    ensures
        skip_quotes_back(after(s, n as nat), from - n, to - n) == skip_quotes_back(s, from, to)
            - n,
    decreases to - from,
{
    if from < to && s[to - 1] == '"' {
        lemma_skip_quotes_back_shift(s, n, from, to - 1);
    }
}

} // verus!
