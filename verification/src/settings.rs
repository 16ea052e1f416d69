//! The Settings screen: the choices it lists, the port editor, and the
//! rows of its Server tab.
pub mod gateway;
pub mod nav;
pub mod screen;
pub mod writes;

use vstd::prelude::*;
use vstd::string::*;
use vstd::utf8::encode_utf8;

use crate::config::ToastDelivery;
use crate::text::{chars_of, decimal, lemma_decimal_digits, lemma_parse_decimal, trim_end, trim_start, format_decimal, owned, push_char, push_str, string_of_range, trim, trim_chars};
use crate::ws_transport::server::port_value;

verus! {

/// Server tab row that turns the gateway on.
pub const SERVER_IDX_ON: usize = 0;

/// Server tab row that turns the gateway off.
pub const SERVER_IDX_OFF: usize = 1;

/// Server tab row that edits the port; shown while the gateway is on.
pub const SERVER_IDX_PORT: usize = 2;

/// How many rows the Server tab lists.
pub fn server_settings_item_count(enabled: bool) -> (r: usize)
    ensures
        r == (if enabled { 3usize } else { 2usize }),
{
    if enabled {
        3
    } else {
        2
    }
}

/// The row selected when the Server tab opens: the current state.
pub fn server_default_selection(enabled: bool) -> (r: usize)
    ensures
        r == (if enabled { SERVER_IDX_ON } else { SERVER_IDX_OFF }),
{
    if enabled {
        SERVER_IDX_ON
    } else {
        SERVER_IDX_OFF
    }
}

/// The row of each toast delivery in the Toast tab.
pub open spec fn spec_toast_delivery_index(d: ToastDelivery) -> usize {
    match d {
        ToastDelivery::Off => 0,
        ToastDelivery::Herdr => 1,
        ToastDelivery::Terminal => 2,
        ToastDelivery::System => 3,
    }
}

/// The toast delivery a row of the Toast tab stands for; rows past the
/// last stand for the last.
pub open spec fn spec_toast_delivery_for_index(idx: usize) -> ToastDelivery {
    if idx == 0 {
        ToastDelivery::Off
    } else if idx == 1 {
        ToastDelivery::Herdr
    } else if idx == 2 {
        ToastDelivery::Terminal
    } else {
        ToastDelivery::System
    }
}

/// The row of a toast delivery in the Toast tab.
pub fn toast_delivery_index(delivery: ToastDelivery) -> (r: usize)
    ensures
        r == spec_toast_delivery_index(delivery),
{
    match delivery {
        ToastDelivery::Off => 0,
        ToastDelivery::Herdr => 1,
        ToastDelivery::Terminal => 2,
        ToastDelivery::System => 3,
    }
}

/// The toast delivery a row of the Toast tab stands for.
pub fn toast_delivery_for_index(idx: usize) -> (r: ToastDelivery)
    ensures
        r == spec_toast_delivery_for_index(idx),
{
    match idx {
        0 => ToastDelivery::Off,
        1 => ToastDelivery::Herdr,
        2 => ToastDelivery::Terminal,
        _ => ToastDelivery::System,
    }
}

/// Selecting the row of a delivery selects that delivery again, and each
/// of the four rows belongs to a different delivery.
pub proof fn lemma_toast_delivery_rows(d: ToastDelivery, idx: usize)
    ensures
        spec_toast_delivery_for_index(spec_toast_delivery_index(d)) == d,
        spec_toast_delivery_index(d) < 4,
        idx < 4 ==> spec_toast_delivery_index(spec_toast_delivery_for_index(idx)) == idx,
{
}

/// The name of a toast delivery in `config.toml`.
pub open spec fn toast_delivery_name(d: ToastDelivery) -> Seq<char> {
    match d {
        ToastDelivery::Off => "off"@,
        ToastDelivery::Herdr => "herdr"@,
        ToastDelivery::Terminal => "terminal"@,
        ToastDelivery::System => "system"@,
    }
}

/// The value written to `[ui.toast] delivery` for a delivery, as TOML.
pub fn toast_delivery_value(delivery: ToastDelivery) -> (r: &'static str)
    ensures
        r@ == "\""@ + toast_delivery_name(delivery) + "\""@,
{
    proof {
        reveal_strlit("\"");
        reveal_strlit("\"off\"");
        reveal_strlit("\"herdr\"");
        reveal_strlit("\"terminal\"");
        reveal_strlit("\"system\"");
        reveal_strlit("off");
        reveal_strlit("herdr");
        reveal_strlit("terminal");
        reveal_strlit("system");
    }
    let r = match delivery {
        ToastDelivery::Off => "\"off\"",
        ToastDelivery::Herdr => "\"herdr\"",
        ToastDelivery::Terminal => "\"terminal\"",
        ToastDelivery::System => "\"system\"",
    };
    assert(r@ =~= "\""@ + toast_delivery_name(delivery) + "\""@);
    r
}

/// `str::to_lowercase`: Unicode lower case of the whole text.
pub uninterp spec fn unicode_lowercase(s: Seq<char>) -> Seq<char>;

/// `str::to_lowercase`, named by `unicode_lowercase`.
#[verifier::external_body]
fn to_lowercase(s: &str) -> (r: String)
    ensures
        r@ == unicode_lowercase(s@),
{
    s.to_lowercase()
}

/// Spaces and underscores written as dashes.
pub open spec fn dashed(s: Seq<char>) -> Seq<char> {
    s.map_values(|c: char| if c == ' ' || c == '_' { '-' } else { c })
}

/// The form theme names are compared in: lower case, with spaces and
/// underscores as dashes.
pub open spec fn theme_key(name: Seq<char>) -> Seq<char> {
    dashed(unicode_lowercase(name))
}

/// The form theme names are compared in.
pub fn normalize_theme_name(name: &str) -> (r: String)
    ensures
        r@ == theme_key(name@),
{
    let lower = to_lowercase(name);
    let cs = chars_of(lower.as_str());
    let mut out = String::new();
    let mut i: usize = 0;
    while i < cs.len()
        invariant
            i <= cs@.len(),
            cs@ == unicode_lowercase(name@),
            out@ == dashed(cs@.subrange(0, i as int)),
        decreases cs@.len() - i,
    {
        let c = cs[i];
        push_char(&mut out, if c == ' ' || c == '_' { '-' } else { c });
        i = i + 1;
        assert(out@ =~= dashed(cs@.subrange(0, i as int)));
    }
    assert(cs@.subrange(0, cs@.len() as int) =~= cs@);
    out
}

/// The first index from `i` on whose name compares equal to `key`.
pub open spec fn first_theme_match(names: Seq<Seq<char>>, key: Seq<char>, i: int) -> Option<int>
    decreases names.len() - i,
{
    if i < 0 || i >= names.len() {
        None
    } else if theme_key(names[i]) == key {
        Some(i)
    } else {
        first_theme_match(names, key, i + 1)
    }
}

/// The views of a list of string slices.
pub open spec fn str_views(names: Seq<&str>) -> Seq<Seq<char>> {
    names.map_values(|s: &str| s@)
}

/// The position of the theme among the names, compared in normalized form;
/// the first name when none matches.
pub open spec fn spec_current_theme_index(names: Seq<Seq<char>>, theme_name: Seq<char>) -> int {
    match first_theme_match(names, theme_key(theme_name), 0) {
        Some(i) => i,
        None => 0,
    }
}

/// The row of the current theme in the Theme tab.
pub fn current_theme_index(theme_names: &[&str], theme_name: &str) -> (r: usize)
    ensures
        r as int == spec_current_theme_index(str_views(theme_names@), theme_name@),
{
    let key = normalize_theme_name(theme_name);
    let ghost names = str_views(theme_names@);
    let mut i: usize = 0;
    while i < theme_names.len()
        invariant
            i <= theme_names@.len(),
            names == str_views(theme_names@),
            key@ == theme_key(theme_name@),
            first_theme_match(names, key@, 0) == first_theme_match(names, key@, i as int),
        decreases theme_names@.len() - i,
    {
        let k = normalize_theme_name(theme_names[i]);
        assert(names[i as int] == theme_names@[i as int]@);
        if crate::text::str_eq(k.as_str(), key.as_str()) {
            return i;
        }
        i = i + 1;
    }
    0
}

/// The text of the port editor and whether the next digit replaces it.
#[derive(Debug, Clone)]
pub struct PortInput {
    pub text: String,
    pub replace_on_type: bool,
}

/// A key pressed in the port editor.
#[derive(Debug, Clone, Copy, PartialEq, Eq)]
pub enum PortKey {
    Save,
    Cancel,
    Clear,
    Backspace,
    Char(char),
    Other,
}

/// What a key did to the port editor.
#[derive(Debug, Clone, Copy, PartialEq, Eq, Structural)]
pub enum PortStep {
    /// The editor stays open.
    Editing,
    /// The text is not a port; the editor stays open and the message
    /// [`PORT_INPUT_ERROR`] is shown.
    Invalid,
    /// The editor closed without saving.
    Closed,
    /// The editor closed; this port is to be saved.
    Save(u16),
}

/// The message shown when the port editor holds no valid port.
pub const PORT_INPUT_ERROR: &'static str = "port must be a number between 1 and 65535";

/// The port editor as it opens: the current port, replaced by the first
/// digit typed.
pub fn open_port_input(port: u16) -> (r: PortInput)
    ensures
        r.text@ == decimal(port as nat),
        r.replace_on_type,
{
    PortInput { text: format_decimal(port as u64), replace_on_type: true }
}

/// The editor's text, whether the next digit replaces it, and the step
/// taken, after a key.
pub open spec fn spec_port_key(text: Seq<char>, replace: bool, key: PortKey) -> (Seq<char>, bool, PortStep) {
    match key {
        PortKey::Save => match port_value(trim(text)) {
            Some(p) => if p > 0 {
                (Seq::empty(), false, PortStep::Save(p))
            } else {
                (text, replace, PortStep::Invalid)
            },
            None => (text, replace, PortStep::Invalid),
        },
        PortKey::Cancel => (Seq::empty(), false, PortStep::Closed),
        PortKey::Clear => (Seq::empty(), false, PortStep::Editing),
        PortKey::Backspace => if replace {
            (Seq::empty(), false, PortStep::Editing)
        } else if text.len() > 0 {
            (text.drop_last(), replace, PortStep::Editing)
        } else {
            (text, replace, PortStep::Editing)
        },
        PortKey::Char(c) => if '0' <= c && c <= '9' && encode_utf8(text).len() < 5 {
            if replace {
                (seq![c], false, PortStep::Editing)
            } else {
                (text.push(c), replace, PortStep::Editing)
            }
        } else {
            (text, replace, PortStep::Editing)
        },
        PortKey::Other => (text, replace, PortStep::Editing),
    }
}

/// The port the editor's text names, when it is one from 1 to 65535.
fn saved_port(text: &String) -> (r: Option<u16>)
    ensures
        r == (match port_value(trim(text@)) {
            Some(p) => if p > 0 { Some(p) } else { None::<u16> },
            None => None::<u16>,
        }),
{
    let cs = chars_of(text.as_str());
    let t = trim_chars(cs.as_slice());
    match crate::text::parse_bounded(t.as_slice(), 65535) {
        Some(n) => {
            if n > 0 {
                Some(n as u16)
            } else {
                None
            }
        },
        None => None,
    }
}

/// Applies a key to the port editor.
pub fn port_input_key(input: &mut PortInput, key: PortKey) -> (r: PortStep)
    ensures
        final(input).text@ == spec_port_key(old(input).text@, old(input).replace_on_type, key).0,
        final(input).replace_on_type == spec_port_key(old(input).text@, old(input).replace_on_type, key).1,
        r == spec_port_key(old(input).text@, old(input).replace_on_type, key).2,
{
    match key {
        PortKey::Save => {
            let parsed = saved_port(&input.text);
            match parsed {
                Some(p) => {
                    input.text = String::new();
                    input.replace_on_type = false;
                    PortStep::Save(p)
                },
                None => PortStep::Invalid,
            }
        },
        PortKey::Cancel => {
            input.text = String::new();
            input.replace_on_type = false;
            PortStep::Closed
        },
        PortKey::Clear => {
            input.text = String::new();
            input.replace_on_type = false;
            PortStep::Editing
        },
        PortKey::Backspace => {
            if input.replace_on_type {
                input.text = String::new();
                input.replace_on_type = false;
            } else {
                let cs = chars_of(input.text.as_str());
                if cs.len() > 0 {
                    input.text = string_of_range(cs.as_slice(), 0, cs.len() - 1);
                    assert(cs@.subrange(0, cs@.len() - 1) =~= cs@.drop_last());
                }
            }
            PortStep::Editing
        },
        PortKey::Char(c) => {
            if '0' <= c && c <= '9' && crate::text::utf8_len_at_most(input.text.as_str(), 4) {
                if input.replace_on_type {
                    input.text = String::new();
                    input.replace_on_type = false;
                }
                push_char(&mut input.text, c);
            }
            PortStep::Editing
        },
        PortKey::Other => PortStep::Editing,
    }
}

/// A row of the Server tab: its text, whether it is selected, and whether
/// it shows the current state.
#[derive(Debug, Clone)]
pub struct ServerRow {
    pub text: String,
    pub selected: bool,
    pub active: bool,
}

/// The text of an on/off row of the Server tab.
pub open spec fn toggle_row_text(value: bool, enabled: bool) -> Seq<char> {
    " wss-server: "@ + (if value { "on"@ } else { "off"@ }) + (if value == enabled { " ✓"@ } else { ""@ })
}

fn toggle_row(value: bool, enabled: bool, selected: usize, idx: usize) -> (r: ServerRow)
    ensures
        r.text@ == toggle_row_text(value, enabled),
        r.selected == (idx == selected),
        r.active == (value == enabled),
{
    let mut t = owned(" wss-server: ");
    push_str(&mut t, if value { "on" } else { "off" });
    push_str(&mut t, if value == enabled { " ✓" } else { "" });
    ServerRow { text: t, selected: idx == selected, active: value == enabled }
}

/// The rows of the Server tab: on, off, and the port while the gateway is
/// on.
pub fn server_rows(enabled: bool, port: u16, selected: usize) -> (r: Vec<ServerRow>)
    ensures
        r@.len() == (if enabled { 3int } else { 2int }),
        r@[0].text@ == toggle_row_text(true, enabled),
        r@[1].text@ == toggle_row_text(false, enabled),
        r@[0].active == enabled,
        r@[1].active == !enabled,
        enabled ==> r@[2].text@ == " port  "@ + decimal(port as nat) && !r@[2].active,
        forall|i: int| 0 <= i < r@.len() ==> (#[trigger] r@[i]).selected == (i == selected),
{
    let mut rows: Vec<ServerRow> = Vec::new();
    rows.push(toggle_row(true, enabled, selected, SERVER_IDX_ON));
    rows.push(toggle_row(false, enabled, selected, SERVER_IDX_OFF));
    if enabled {
        let mut t = owned(" port  ");
        let p = format_decimal(port as u64);
        push_str(&mut t, p.as_str());
        rows.push(ServerRow { text: t, selected: selected == SERVER_IDX_PORT, active: false });
    }
    rows
}

/// `Path::strip_prefix` on Unix paths given as text: the rest of `path`
/// after the components of `base`, if `base` is a prefix of it.
pub uninterp spec fn path_strip_prefix(path: Seq<char>, base: Seq<char>) -> Option<Seq<char>>;

/// `std::path::Path::strip_prefix`, the rest shown with `Path::display`;
/// named by `path_strip_prefix`.
#[verifier::external_body]
fn strip_path_prefix(path: &str, base: &str) -> (r: Option<String>)
    ensures
        match path_strip_prefix(path@, base@) {
            Some(rest) => r matches Some(s) && s@ == rest,
            None => r is None,
        },
{
    match std::path::Path::new(path).strip_prefix(base) {
        Ok(rest) => Some(rest.display().to_string()),
        Err(_) => None,
    }
}

/// How a path is shown: below the home directory as `~/...`.
pub open spec fn spec_display_path(path: Seq<char>, home: Option<Seq<char>>) -> Seq<char> {
    match home {
        Some(h) => match path_strip_prefix(path, h) {
            Some(rest) => "~/"@ + rest,
            None => path,
        },
        None => path,
    }
}

/// Shows a path, below the home directory (when known) as `~/...`.
pub fn display_path(path: &str, home: Option<&str>) -> (r: String)
    ensures
        r@ == spec_display_path(path@, crate::ws_transport::auth::opt_str_view(home)),
{
    match home {
        Some(h) => match strip_path_prefix(path, h) {
            Some(rest) => {
                let mut s = owned("~/");
                push_str(&mut s, rest.as_str());
                s
            },
            None => owned(path),
        },
        None => owned(path),
    }
}

/// The description at the top of the Server tab, naming the file the
/// password and fingerprint are kept in.
pub fn server_settings_description(shown_config_path: &str) -> (r: String)
    ensures
        r@ == "Password and TLS fingerprint are stored in [server] in:\n"@ + shown_config_path@
            + "\n(wss-server uses TLS by default.)"@,
{
    let mut s = owned("Password and TLS fingerprint are stored in [server] in:\n");
    push_str(&mut s, shown_config_path);
    push_str(&mut s, "\n(wss-server uses TLS by default.)");
    s
}

/// Saving the port editor as it opened saves the port it showed.
pub proof fn lemma_port_editor_keeps_port(port: u16)
    requires
        port > 0,
    ensures
        spec_port_key(decimal(port as nat), true, PortKey::Save) == (Seq::<char>::empty(), false, PortStep::Save(port)),
{
    let d = decimal(port as nat);
    lemma_decimal_digits(port as nat);
    lemma_parse_decimal(port as nat);
    assert(crate::text::is_digit(d[0]));
    assert(crate::text::is_digit(d[d.len() - 1]));
    assert(trim_start(d) == d);
    assert(trim_end(d) == d);
}

/// Whether a row of the Theme tab is the current theme (it gets a check
/// mark), the names compared in normalized form.
pub fn theme_is_current(name: &str, current: &str) -> (r: bool)
    ensures
        r == (theme_key(name@) == theme_key(current@)),
{
    let a = normalize_theme_name(name);
    let b = normalize_theme_name(current);
    crate::text::str_eq(a.as_str(), b.as_str())
}

} // verus!
