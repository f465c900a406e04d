//! Which desktop session is running, decided from the session's environment.
//!
//! The environment itself is read by the caller; this module holds the rules
//! that turn the values of the session variables into a [`Desktop`].

use vstd::prelude::*;
use vstd::string::*;

use crate::text::{
    eq_ignore_ascii_case, has_piece, has_piece_ignore_ascii_case, is_blank, is_blank_str,
    lemma_blank_ignores_ascii_case, lemma_eq_ignore_ascii_case_trans,
    lemma_joined_pieces, lemma_pieces_ignore_ascii_case, lemma_single_piece,
    range_eq_ignore_ascii_case,
};

verus! {

/// The desktop session that the daemon is running in.
#[derive(Debug)]
pub enum Desktop {
    Hyprland,
    Sway,
    Gnome,
    Kde,
    Plasma,
    Xfce,
    Cosmic,
    Wayland,
    X11,
    Tty,
    Unknown(String),
}

/// The mathematical value of a [`Desktop`].
pub enum DesktopView {
    Hyprland,
    Sway,
    Gnome,
    Kde,
    Plasma,
    Xfce,
    Cosmic,
    Wayland,
    X11,
    Tty,
    Unknown(Seq<char>),
}

impl View for Desktop {
    type V = DesktopView;

    open spec fn view(&self) -> DesktopView {
        match self {
            Desktop::Hyprland => DesktopView::Hyprland,
            Desktop::Sway => DesktopView::Sway,
            Desktop::Gnome => DesktopView::Gnome,
            Desktop::Kde => DesktopView::Kde,
            Desktop::Plasma => DesktopView::Plasma,
            Desktop::Xfce => DesktopView::Xfce,
            Desktop::Cosmic => DesktopView::Cosmic,
            Desktop::Wayland => DesktopView::Wayland,
            Desktop::X11 => DesktopView::X11,
            Desktop::Tty => DesktopView::Tty,
            Desktop::Unknown(s) => DesktopView::Unknown(s@),
        }
    }
}

/// The values of the environment variables that identify a session; `None`
/// stands for a variable that is not set (or is not valid Unicode).
pub struct SessionEnv {
    pub xdg_session_type: Option<String>,
    pub hyprland_instance_signature: Option<String>,
    pub swaysock: Option<String>,
    pub xdg_current_desktop: Option<String>,
    pub xdg_session_desktop: Option<String>,
    pub desktop_session: Option<String>,
    pub wayland_display: Option<String>,
    pub display: Option<String>,
}

/// The mathematical value of a [`SessionEnv`].
pub struct SessionVars {
    pub xdg_session_type: Option<Seq<char>>,
    pub hyprland_instance_signature: Option<Seq<char>>,
    pub swaysock: Option<Seq<char>>,
    pub xdg_current_desktop: Option<Seq<char>>,
    pub xdg_session_desktop: Option<Seq<char>>,
    pub desktop_session: Option<Seq<char>>,
    pub wayland_display: Option<Seq<char>>,
    pub display: Option<Seq<char>>,
}

pub open spec fn opt_view(v: Option<String>) -> Option<Seq<char>> {
    match v {
        Some(s) => Some(s@),
        None => None,
    }
}

impl View for SessionEnv {
    type V = SessionVars;

    open spec fn view(&self) -> SessionVars {
        SessionVars {
            xdg_session_type: opt_view(self.xdg_session_type),
            hyprland_instance_signature: opt_view(self.hyprland_instance_signature),
            swaysock: opt_view(self.swaysock),
            xdg_current_desktop: opt_view(self.xdg_current_desktop),
            xdg_session_desktop: opt_view(self.xdg_session_desktop),
            desktop_session: opt_view(self.desktop_session),
            wayland_display: opt_view(self.wayland_display),
            display: opt_view(self.display),
        }
    }
}

/// A variable counts as set only when its value is not blank.
pub open spec fn present(v: Option<Seq<char>>) -> Option<Seq<char>> {
    match v {
        Some(s) => if is_blank(s) {
            None
        } else {
            Some(s)
        },
        None => None,
    }
}

/// The desktop list `value` (pieces separated by `:`) holds `name`, ignoring ASCII case.
pub open spec fn lists(value: Seq<char>, name: Seq<char>) -> bool {
    has_piece_ignore_ascii_case(value, ':', name)
}

/// The desktop that one desktop-list value names, the checks taken in order.
pub open spec fn desktop_of_list(value: Seq<char>) -> Option<DesktopView> {
    if lists(value, "cosmic"@) && lists(value, "sway"@) {
        Some(DesktopView::Sway)
    } else if lists(value, "hyprland"@) {
        Some(DesktopView::Hyprland)
    } else if lists(value, "sway"@) {
        Some(DesktopView::Sway)
    } else if lists(value, "gnome"@) {
        Some(DesktopView::Gnome)
    } else if lists(value, "kde"@) {
        Some(DesktopView::Kde)
    } else if lists(value, "plasma"@) {
        Some(DesktopView::Plasma)
    } else if lists(value, "xfce"@) {
        Some(DesktopView::Xfce)
    } else if lists(value, "cosmic"@) {
        Some(DesktopView::Cosmic)
    } else {
        None
    }
}

/// What a desktop-list variable decides: nothing when it is unset or blank.
pub open spec fn desktop_of_var(v: Option<Seq<char>>) -> Option<DesktopView> {
    match present(v) {
        Some(s) => desktop_of_list(s),
        None => None,
    }
}

/// The session type names a text console: the value lower-cases to `tty`.
pub open spec fn is_tty_type(v: Option<Seq<char>>) -> bool {
    match present(v) {
        Some(s) => eq_ignore_ascii_case(s, "tty"@),
        None => false,
    }
}

/// The session that the variables identify, the rules taken in priority order.
pub open spec fn session_of(e: SessionVars) -> DesktopView {
    if is_tty_type(e.xdg_session_type) {
        DesktopView::Tty
    } else if present(e.hyprland_instance_signature) is Some {
        DesktopView::Hyprland
    } else if present(e.swaysock) is Some {
        DesktopView::Sway
    } else if desktop_of_var(e.xdg_current_desktop) is Some {
        desktop_of_var(e.xdg_current_desktop)->0
    } else if desktop_of_var(e.xdg_session_desktop) is Some {
        desktop_of_var(e.xdg_session_desktop)->0
    } else if desktop_of_var(e.desktop_session) is Some {
        desktop_of_var(e.desktop_session)->0
    } else if present(e.wayland_display) is Some {
        DesktopView::Wayland
    } else if present(e.display) is Some {
        DesktopView::X11
    } else {
        DesktopView::Unknown("Not Detected"@)
    }
}

/// The value of a variable, or `None` when it is unset or blank.
fn non_empty_env(value: &Option<String>) -> (r: Option<&str>)
    ensures
        match r {
            Some(s) => present(opt_view(*value)) == Some(s@),
            None => present(opt_view(*value)) is None,
        },
{
    match value {
        Some(s) => {
            if is_blank_str(s.as_str()) {
                None
            } else {
                Some(s.as_str())
            }
        },
        None => None,
    }
}

/// Whether the `:`-separated desktop list `value` holds `expected`, ignoring
/// ASCII case; a list item must equal `expected` as a whole.
pub fn has_desktop_token(value: &str, expected: &str) -> (r: bool)
    ensures
        r == lists(value@, expected@),
{
    has_piece(value, ':', expected)
}

/// The desktop that one desktop-list value names, if any.
fn desktop_from_list(value: &str) -> (r: Option<Desktop>)
    ensures
        match r {
            Some(d) => desktop_of_list(value@) == Some(d@),
            None => desktop_of_list(value@) is None,
        },
{
    if has_desktop_token(value, "cosmic") && has_desktop_token(value, "sway") {
        return Some(Desktop::Sway);
    }
    if has_desktop_token(value, "hyprland") {
        return Some(Desktop::Hyprland);
    }
    if has_desktop_token(value, "sway") {
        return Some(Desktop::Sway);
    }
    if has_desktop_token(value, "gnome") {
        return Some(Desktop::Gnome);
    }
    if has_desktop_token(value, "kde") {
        return Some(Desktop::Kde);
    }
    if has_desktop_token(value, "plasma") {
        return Some(Desktop::Plasma);
    }
    if has_desktop_token(value, "xfce") {
        return Some(Desktop::Xfce);
    }
    if has_desktop_token(value, "cosmic") {
        return Some(Desktop::Cosmic);
    }
    None
}

/// The desktop that a desktop-list variable names, if it is set, not blank,
/// and names one.
fn desktop_from_var(value: &Option<String>) -> (r: Option<Desktop>)
    ensures
        match r {
            Some(d) => desktop_of_var(opt_view(*value)) == Some(d@),
            None => desktop_of_var(opt_view(*value)) is None,
        },
{
    match non_empty_env(value) {
        Some(s) => desktop_from_list(s),
        None => None,
    }
}

/// Identifies the running session from the values of its environment
/// variables, in a fixed priority order: a `tty` session type, then a
/// Hyprland instance signature, then a Sway socket, then the desktop lists
/// `XDG_CURRENT_DESKTOP`, `XDG_SESSION_DESKTOP` and `DESKTOP_SESSION`, then a
/// Wayland display, then an X11 display. Blank values count as unset.
pub fn get_current_session(env: &SessionEnv) -> (r: Desktop)
    ensures
        r@ == session_of(env@),
{
    if let Some(session_type) = non_empty_env(&env.xdg_session_type) {
        assert(session_type@.subrange(0, session_type@.len() as int) =~= session_type@);
        if range_eq_ignore_ascii_case(session_type, 0, session_type.unicode_len(), "tty") {
            return Desktop::Tty;
        }
    }
    if non_empty_env(&env.hyprland_instance_signature).is_some() {
        return Desktop::Hyprland;
    }
    if non_empty_env(&env.swaysock).is_some() {
        return Desktop::Sway;
    }
    if let Some(d) = desktop_from_var(&env.xdg_current_desktop) {
        return d;
    }
    if let Some(d) = desktop_from_var(&env.xdg_session_desktop) {
        return d;
    }
    if let Some(d) = desktop_from_var(&env.desktop_session) {
        return d;
    }
    if non_empty_env(&env.wayland_display).is_some() {
        return Desktop::Wayland;
    }
    if non_empty_env(&env.display).is_some() {
        return Desktop::X11;
    }
    Desktop::Unknown(String::from_str("Not Detected"))
}

/// The variables with every blank value replaced by "unset".
pub open spec fn without_blanks(e: SessionVars) -> SessionVars {
    SessionVars {
        xdg_session_type: present(e.xdg_session_type),
        hyprland_instance_signature: present(e.hyprland_instance_signature),
        swaysock: present(e.swaysock),
        xdg_current_desktop: present(e.xdg_current_desktop),
        xdg_session_desktop: present(e.xdg_session_desktop),
        desktop_session: present(e.desktop_session),
        wayland_display: present(e.wayland_display),
        display: present(e.display),
    }
}

/// Empty and whitespace-only values are not session indicators: the session
/// is the same as if every such variable were unset.
pub proof fn lemma_blank_values_count_as_unset(e: SessionVars)
    ensures
        session_of(e) == session_of(without_blanks(e)),
{
}

/// A `tty` session type, in any ASCII case, decides the session before any
/// other variable.
pub proof fn lemma_tty_session_type_comes_first(e: SessionVars)
    requires
        is_tty_type(e.xdg_session_type),
    ensures
        session_of(e) == DesktopView::Tty,
{
}

/// A desktop list that holds both `cosmic` and `sway` (as Regolith's
/// `Regolith-Wayland:COSMIC:sway` does) names Sway, not COSMIC.
pub proof fn lemma_cosmic_on_sway_is_sway(value: Seq<char>)
    requires
        lists(value, "cosmic"@),
        lists(value, "sway"@),
    ensures
        desktop_of_list(value) == Some(DesktopView::Sway),
{
}

/// When no console, Hyprland or Sway socket indicator is set, the first
/// desktop-list variable that names a desktop decides the session.
pub proof fn lemma_first_naming_list_decides(e: SessionVars)
    requires
        !is_tty_type(e.xdg_session_type),
        present(e.hyprland_instance_signature) is None,
        present(e.swaysock) is None,
        desktop_of_var(e.xdg_current_desktop) is Some || desktop_of_var(e.xdg_session_desktop) is Some
            || desktop_of_var(e.desktop_session) is Some,
    ensures
        session_of(e) == (if desktop_of_var(e.xdg_current_desktop) is Some {
            desktop_of_var(e.xdg_current_desktop)->0
        } else if desktop_of_var(e.xdg_session_desktop) is Some {
            desktop_of_var(e.xdg_session_desktop)->0
        } else {
            desktop_of_var(e.desktop_session)->0
        }),
{
}

/// With no variable set to a non-blank value, the session is unknown.
pub proof fn lemma_nothing_set_is_unknown(e: SessionVars)
    requires
        present(e.xdg_session_type) is None,
        present(e.hyprland_instance_signature) is None,
        present(e.swaysock) is None,
        present(e.xdg_current_desktop) is None,
        present(e.xdg_session_desktop) is None,
        present(e.desktop_session) is None,
        present(e.wayland_display) is None,
        present(e.display) is None,
    ensures
        session_of(e) == DesktopView::Unknown("Not Detected"@),
{
}

/// Two values of one variable that differ at most in ASCII case: both unset,
/// or both set to texts equal ignoring ASCII case.
pub open spec fn case_equal_var(a: Option<Seq<char>>, b: Option<Seq<char>>) -> bool {
    match (a, b) {
        (None, None) => true,
        (Some(x), Some(y)) => eq_ignore_ascii_case(x, y),
        _ => false,
    }
}

/// The desktop list `value` holds `name` exactly when a list equal to it
/// ignoring ASCII case holds a name equal to `name` ignoring ASCII case.
pub proof fn lemma_lists_ignores_ascii_case(v1: Seq<char>, v2: Seq<char>, x1: Seq<char>, x2: Seq<char>)
    requires
        eq_ignore_ascii_case(v1, v2),
        eq_ignore_ascii_case(x1, x2),
    ensures
        lists(v1, x1) == lists(v2, x2),
{
    lemma_pieces_ignore_ascii_case(v1, v2, ':', x1, x2);
}

proof fn lemma_present_ignores_ascii_case(a: Option<Seq<char>>, b: Option<Seq<char>>)
    requires
        case_equal_var(a, b),
    ensures
        case_equal_var(present(a), present(b)),
{
    if let (Some(x), Some(y)) = (a, b) {
        lemma_blank_ignores_ascii_case(x, y);
    }
}

proof fn lemma_desktop_list_ignores_ascii_case(x: Seq<char>, y: Seq<char>)
    requires
        eq_ignore_ascii_case(x, y),
    ensures
        desktop_of_list(x) == desktop_of_list(y),
{
    lemma_lists_ignores_ascii_case(x, y, "cosmic"@, "cosmic"@);
    lemma_lists_ignores_ascii_case(x, y, "sway"@, "sway"@);
    lemma_lists_ignores_ascii_case(x, y, "hyprland"@, "hyprland"@);
    lemma_lists_ignores_ascii_case(x, y, "gnome"@, "gnome"@);
    lemma_lists_ignores_ascii_case(x, y, "kde"@, "kde"@);
    lemma_lists_ignores_ascii_case(x, y, "plasma"@, "plasma"@);
    lemma_lists_ignores_ascii_case(x, y, "xfce"@, "xfce"@);
}

proof fn lemma_var_ignores_ascii_case(a: Option<Seq<char>>, b: Option<Seq<char>>)
    requires
        case_equal_var(a, b),
    ensures
        present(a) is Some == present(b) is Some,
        desktop_of_var(a) == desktop_of_var(b),
        is_tty_type(a) == is_tty_type(b),
{
    lemma_present_ignores_ascii_case(a, b);
    if let (Some(x), Some(y)) = (present(a), present(b)) {
        lemma_desktop_list_ignores_ascii_case(x, y);
        if eq_ignore_ascii_case(x, "tty"@) {
            lemma_eq_ignore_ascii_case_trans(y, x, "tty"@);
        }
        if eq_ignore_ascii_case(y, "tty"@) {
            lemma_eq_ignore_ascii_case_trans(x, y, "tty"@);
        }
    }
}

/// The ASCII case of the variables' values does not matter: variables that
/// differ only in it (`COSMIC:Sway` and `cosmic:SWAY`, say) identify the same
/// session.
pub proof fn lemma_ascii_case_does_not_matter(e1: SessionVars, e2: SessionVars)
    requires
        case_equal_var(e1.xdg_session_type, e2.xdg_session_type),
        case_equal_var(e1.hyprland_instance_signature, e2.hyprland_instance_signature),
        case_equal_var(e1.swaysock, e2.swaysock),
        case_equal_var(e1.xdg_current_desktop, e2.xdg_current_desktop),
        case_equal_var(e1.xdg_session_desktop, e2.xdg_session_desktop),
        case_equal_var(e1.desktop_session, e2.desktop_session),
        case_equal_var(e1.wayland_display, e2.wayland_display),
        case_equal_var(e1.display, e2.display),
    ensures
        session_of(e1) == session_of(e2),
{
    lemma_var_ignores_ascii_case(e1.xdg_session_type, e2.xdg_session_type);
    lemma_var_ignores_ascii_case(e1.hyprland_instance_signature, e2.hyprland_instance_signature);
    lemma_var_ignores_ascii_case(e1.swaysock, e2.swaysock);
    lemma_var_ignores_ascii_case(e1.xdg_current_desktop, e2.xdg_current_desktop);
    lemma_var_ignores_ascii_case(e1.xdg_session_desktop, e2.xdg_session_desktop);
    lemma_var_ignores_ascii_case(e1.desktop_session, e2.desktop_session);
    lemma_var_ignores_ascii_case(e1.wayland_display, e2.wayland_display);
    lemma_var_ignores_ascii_case(e1.display, e2.display);
}

/// A variable counts as set exactly when it has a value that is not blank,
/// and then it counts with that value.
pub proof fn lemma_present_is_non_blank_value(v: Option<Seq<char>>)
    ensures
        present(v) is Some <==> (v is Some && !is_blank(v->0)),
        present(v) is Some ==> present(v) == v,
{
}

/// The session type names a console exactly when it is set and equals
/// `tty` ignoring ASCII case.
pub proof fn lemma_tty_type_is_tty_ignoring_case(v: Option<Seq<char>>)
    ensures
        is_tty_type(v) <==> (v is Some && !is_blank(v->0) && eq_ignore_ascii_case(v->0, "tty"@)),
{
}

/// Outside a console session, a Hyprland instance signature means Hyprland,
/// whatever the other variables hold.
pub proof fn lemma_hyprland_signature_means_hyprland(e: SessionVars)
    requires
        !is_tty_type(e.xdg_session_type),
        present(e.hyprland_instance_signature) is Some,
    ensures
        session_of(e) == DesktopView::Hyprland,
{
}

/// Outside a console session and without a Hyprland signature, a Sway
/// socket means Sway, whatever the displays and desktop lists hold.
pub proof fn lemma_sway_socket_means_sway(e: SessionVars)
    requires
        !is_tty_type(e.xdg_session_type),
        present(e.hyprland_instance_signature) is None,
        present(e.swaysock) is Some,
    ensures
        session_of(e) == DesktopView::Sway,
{
}

/// When nothing before it decides, a Wayland display means a plain Wayland
/// session, whatever `DISPLAY` and a non-console session type hold.
pub proof fn lemma_wayland_display_means_wayland(e: SessionVars)
    requires
        !is_tty_type(e.xdg_session_type),
        present(e.hyprland_instance_signature) is None,
        present(e.swaysock) is None,
        desktop_of_var(e.xdg_current_desktop) is None,
        desktop_of_var(e.xdg_session_desktop) is None,
        desktop_of_var(e.desktop_session) is None,
        present(e.wayland_display) is Some,
    ensures
        session_of(e) == DesktopView::Wayland,
{
}

/// When nothing before it decides, an X11 display means an X11 session,
/// whatever non-console value the session type holds.
pub proof fn lemma_display_means_x11(e: SessionVars)
    requires
        !is_tty_type(e.xdg_session_type),
        present(e.hyprland_instance_signature) is None,
        present(e.swaysock) is None,
        desktop_of_var(e.xdg_current_desktop) is None,
        desktop_of_var(e.xdg_session_desktop) is None,
        desktop_of_var(e.desktop_session) is None,
        present(e.wayland_display) is None,
        present(e.display) is Some,
    ensures
        session_of(e) == DesktopView::X11,
{
}

/// The session is unknown only when no rule applies.
pub proof fn lemma_unknown_only_when_nothing_decides(e: SessionVars)
    ensures
        session_of(e) is Unknown <==> (!is_tty_type(e.xdg_session_type) && present(
            e.hyprland_instance_signature,
        ) is None && present(e.swaysock) is None && desktop_of_var(e.xdg_current_desktop) is None
            && desktop_of_var(e.xdg_session_desktop) is None && desktop_of_var(e.desktop_session) is None
            && present(e.wayland_display) is None && present(e.display) is None),
{
}

/// A desktop list names a desktop only when it lists that desktop's name:
/// the desktop it gives is always one whose name it holds.
pub proof fn lemma_list_names_a_listed_desktop(v: Seq<char>)
    ensures
        desktop_of_list(v) == Some(DesktopView::Hyprland) ==> lists(v, "hyprland"@),
        desktop_of_list(v) == Some(DesktopView::Sway) ==> lists(v, "sway"@),
        desktop_of_list(v) == Some(DesktopView::Gnome) ==> lists(v, "gnome"@),
        desktop_of_list(v) == Some(DesktopView::Kde) ==> lists(v, "kde"@),
        desktop_of_list(v) == Some(DesktopView::Plasma) ==> lists(v, "plasma"@),
        desktop_of_list(v) == Some(DesktopView::Xfce) ==> lists(v, "xfce"@),
        desktop_of_list(v) == Some(DesktopView::Cosmic) ==> lists(v, "cosmic"@),
        desktop_of_list(v) is Some || desktop_of_list(v) is None,
        desktop_of_list(v) is None <==> !(lists(v, "hyprland"@) || lists(v, "sway"@) || lists(
            v,
            "gnome"@,
        ) || lists(v, "kde"@) || lists(v, "plasma"@) || lists(v, "xfce"@) || lists(v, "cosmic"@)),
        desktop_of_list(v) is Some ==> !(desktop_of_list(v)->0 is Unknown || desktop_of_list(v)->0 is Tty
            || desktop_of_list(v)->0 is Wayland || desktop_of_list(v)->0 is X11),
{
}

/// A single item (a text without `:`) lists exactly the name it equals
/// ignoring ASCII case.
pub proof fn lemma_single_item_lists_itself(item: Seq<char>, name: Seq<char>)
    requires
        forall|k: int| 0 <= k < item.len() ==> #[trigger] item[k] != ':',
    ensures
        lists(item, name) == eq_ignore_ascii_case(item, name),
{
    lemma_single_piece(item, ':', name);
}

/// Joining two desktop lists with `:` lists exactly the names that either of
/// them lists.
pub proof fn lemma_joined_lists(a: Seq<char>, b: Seq<char>, name: Seq<char>)
    ensures
        lists(a + seq![':'] + b, name) == (lists(a, name) || lists(b, name)),
{
    lemma_joined_pieces(a, b, ':', name);
}

/// The order in which a desktop list's names are checked: each name decides
/// when it is listed and no name checked before it is.
pub proof fn lemma_list_priority(v: Seq<char>)
    ensures
        lists(v, "hyprland"@) && !(lists(v, "cosmic"@) && lists(v, "sway"@)) ==> desktop_of_list(v)
            == Some(DesktopView::Hyprland),
        lists(v, "sway"@) && !lists(v, "hyprland"@) ==> desktop_of_list(v) == Some(DesktopView::Sway),
        lists(v, "gnome"@) && !lists(v, "hyprland"@) && !lists(v, "sway"@) ==> desktop_of_list(v) == Some(
            DesktopView::Gnome,
        ),
        lists(v, "kde"@) && !lists(v, "hyprland"@) && !lists(v, "sway"@) && !lists(v, "gnome"@)
            ==> desktop_of_list(v) == Some(DesktopView::Kde),
        lists(v, "plasma"@) && !lists(v, "hyprland"@) && !lists(v, "sway"@) && !lists(v, "gnome"@)
            && !lists(v, "kde"@) ==> desktop_of_list(v) == Some(DesktopView::Plasma),
        lists(v, "xfce"@) && !lists(v, "hyprland"@) && !lists(v, "sway"@) && !lists(v, "gnome"@)
            && !lists(v, "kde"@) && !lists(v, "plasma"@) ==> desktop_of_list(v) == Some(
            DesktopView::Xfce,
        ),
        lists(v, "cosmic"@) && !lists(v, "hyprland"@) && !lists(v, "sway"@) && !lists(v, "gnome"@)
            && !lists(v, "kde"@) && !lists(v, "plasma"@) && !lists(v, "xfce"@) ==> desktop_of_list(v)
            == Some(DesktopView::Cosmic),
{
}

} // verus!
