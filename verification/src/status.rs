//! The status that the indicator shows: which icon, and what text.
//!
//! The status is a function of the session's state and of the display theme,
//! computed afresh each time and never patched.

use vstd::prelude::*;

verus! {

/// One of the four icons that the shell keeps ready.
#[derive(Clone, Copy, PartialEq, Eq, Structural, Debug)]
pub enum IconSelector {
    Active,
    ActiveInverted,
    Muted,
    MutedInverted,
}

impl IconSelector {
    /// Whether this is one of the two icons for a muted microphone.
    pub open spec fn is_muted_variant(self) -> bool {
        self is Muted || self is MutedInverted
    }

    /// Whether this is one of the two icons with inverted colours.
    pub open spec fn is_inverted_variant(self) -> bool {
        self is ActiveInverted || self is MutedInverted
    }

    /// The icon for a microphone that is muted or not, in plain or inverted
    /// colours.
    pub open spec fn pick(muted: bool, inverted: bool) -> IconSelector {
        if muted {
            if inverted {
                IconSelector::MutedInverted
            } else {
                IconSelector::Muted
            }
        } else {
            if inverted {
                IconSelector::ActiveInverted
            } else {
                IconSelector::Active
            }
        }
    }

    /// Whether this is one of the two icons for a muted microphone.
    pub fn is_muted(&self) -> (muted: bool)
        ensures
            muted == self.is_muted_variant(),
    {
        match self {
            IconSelector::Muted => true,
            IconSelector::MutedInverted => true,
            _ => false,
        }
    }

    /// Whether this is one of the two icons with inverted colours.
    pub fn is_inverted(&self) -> (inverted: bool)
        ensures
            inverted == self.is_inverted_variant(),
    {
        match self {
            IconSelector::ActiveInverted => true,
            IconSelector::MutedInverted => true,
            _ => false,
        }
    }
}

/// The state of the session as the status shows it.
pub enum SessionState {
    /// No default capture device.
    NoDevice,
    /// A device without a volume control.
    NoControl { name: String },
    /// A device with its control; `percent` is the volume, rounded.
    Bound { name: String, muted: bool, percent: u32 },
}

/// What a [`SessionState`] stands for in contracts.
pub ghost enum SessionStateView {
    NoDevice,
    NoControl { name: Seq<char> },
    Bound { name: Seq<char>, muted: bool, percent: u32 },
}

impl View for SessionState {
    type V = SessionStateView;

    open spec fn view(&self) -> SessionStateView {
        match self {
            SessionState::NoDevice => SessionStateView::NoDevice,
            SessionState::NoControl { name } => SessionStateView::NoControl { name: name@ },
            SessionState::Bound { name, muted, percent } => SessionStateView::Bound {
                name: name@,
                muted: *muted,
                percent: *percent,
            },
        }
    }
}

/// Icon and text of the indicator.
pub struct Status {
    pub icon: IconSelector,
    pub text: String,
}

/// What a [`Status`] stands for in contracts.
pub ghost struct StatusView {
    pub icon: IconSelector,
    pub text: Seq<char>,
}

impl View for Status {
    type V = StatusView;

    open spec fn view(&self) -> StatusView {
        StatusView { icon: self.icon, text: self.text@ }
    }
}

impl Clone for Status {
    fn clone(&self) -> (copy: Self)
        ensures
            copy@ == self@,
    {
        Status { icon: self.icon, text: self.text.clone() }
    }
}

/// The character of one decimal digit.
pub open spec fn digit(d: int) -> char {
    if d == 0 {
        '0'
    } else if d == 1 {
        '1'
    } else if d == 2 {
        '2'
    } else if d == 3 {
        '3'
    } else if d == 4 {
        '4'
    } else if d == 5 {
        '5'
    } else if d == 6 {
        '6'
    } else if d == 7 {
        '7'
    } else if d == 8 {
        '8'
    } else {
        '9'
    }
}

/// A number written in decimal, without sign or leading zeros.
pub open spec fn decimal(n: nat) -> Seq<char>
    decreases n,
{
    if n < 10 {
        seq![digit(n as int)]
    } else {
        decimal(n / 10).push(digit((n % 10) as int))
    }
}

/// Whether the state calls for a muted icon: everything but a device whose
/// control says that it is not muted.
pub open spec fn shows_muted(state: SessionStateView) -> bool {
    match state {
        SessionStateView::Bound { muted, .. } => muted,
        _ => true,
    }
}

/// The text of the indicator.
pub open spec fn status_text(state: SessionStateView) -> Seq<char> {
    match state {
        SessionStateView::NoDevice => "no default capture device"@,
        SessionStateView::NoControl { name } => name + ": "@ + "volume unknown"@,
        SessionStateView::Bound { name, muted, percent } => {
            if muted {
                name + ": "@ + "muted"@
            } else {
                name + ": "@ + decimal(percent as nat) + "%"@
            }
        },
    }
}

/// The status for a state of the session under a theme.
pub open spec fn projection(state: SessionStateView, inverted: bool) -> StatusView {
    StatusView { icon: IconSelector::pick(shows_muted(state), inverted), text: status_text(state) }
}

/// One decimal digit as text.
fn digit_text(d: u32) -> (text: &'static str)
    requires
        d < 10,
    ensures
        text@ == seq![digit(d as int)],
{
    proof {
        reveal_strlit("0");
        reveal_strlit("1");
        reveal_strlit("2");
        reveal_strlit("3");
        reveal_strlit("4");
        reveal_strlit("5");
        reveal_strlit("6");
        reveal_strlit("7");
        reveal_strlit("8");
        reveal_strlit("9");
    }
    let text = if d == 0 {
        "0"
    } else if d == 1 {
        "1"
    } else if d == 2 {
        "2"
    } else if d == 3 {
        "3"
    } else if d == 4 {
        "4"
    } else if d == 5 {
        "5"
    } else if d == 6 {
        "6"
    } else if d == 7 {
        "7"
    } else if d == 8 {
        "8"
    } else {
        "9"
    };
    assert(text@ =~= seq![digit(d as int)]);
    text
}

/// Writes a number in decimal.
pub fn decimal_text(n: u32) -> (text: String)
    ensures
        text@ == decimal(n as nat),
    decreases n,
{
    if n < 10 {
        String::from_str(digit_text(n))
    } else {
        let mut text = decimal_text(n / 10);
        text.append(digit_text(n % 10));
        assert(text@ =~= decimal(n as nat));
        text
    }
}

/// The icon for a microphone that is muted or not, in plain or inverted
/// colours.
pub fn pick_icon(muted: bool, inverted: bool) -> (icon: IconSelector)
    ensures
        icon == IconSelector::pick(muted, inverted),
{
    if muted {
        if inverted {
            IconSelector::MutedInverted
        } else {
            IconSelector::Muted
        }
    } else {
        if inverted {
            IconSelector::ActiveInverted
        } else {
            IconSelector::Active
        }
    }
}

/// Projects the state of the session onto icon and text. `inverted` says
/// whether the theme asks for the icons with inverted colours.
pub fn project(state: &SessionState, inverted: bool) -> (status: Status)
    ensures
        status@ == projection(state@, inverted),
{
    match state {
        SessionState::NoDevice => Status {
            icon: pick_icon(true, inverted),
            text: String::from_str("no default capture device"),
        },
        SessionState::NoControl { name } => {
            let mut text = name.clone();
            text.append(": ");
            text.append("volume unknown");
            Status { icon: pick_icon(true, inverted), text }
        },
        SessionState::Bound { name, muted, percent } => {
            let mut text = name.clone();
            text.append(": ");
            if *muted {
                text.append("muted");
            } else {
                let number = decimal_text(*percent);
                text.append(number.as_str());
                text.append("%");
            }
            Status { icon: pick_icon(*muted, inverted), text }
        },
    }
}

/// The projection is a function: equal inputs give equal status.
pub proof fn lemma_projection_is_a_function(
    a: SessionStateView,
    b: SessionStateView,
    inverted_a: bool,
    inverted_b: bool,
)
    requires
        a == b,
        inverted_a == inverted_b,
    ensures
        projection(a, inverted_a) == projection(b, inverted_b),
{
}

/// A muted microphone shows a muted icon and the same text at every volume,
/// and the theme alone decides between plain and inverted colours.
pub proof fn lemma_muted_shows_muted(name: Seq<char>, percent: u32, other: u32, inverted: bool)
    ensures
        projection(
            SessionStateView::Bound { name, muted: true, percent },
            inverted,
        ).icon.is_muted_variant(),
        projection(SessionStateView::Bound { name, muted: true, percent }, inverted)
            == projection(SessionStateView::Bound { name, muted: true, percent: other }, inverted),
        projection(
            SessionStateView::Bound { name, muted: true, percent },
            inverted,
        ).icon.is_inverted_variant() == inverted,
{
}

/// Only a device whose control says that it is not muted shows an active
/// icon; in every state the theme alone decides the colours.
pub proof fn lemma_icon_follows_state(state: SessionStateView, inverted: bool)
    ensures
        projection(state, inverted).icon.is_muted_variant() == shows_muted(state),
        projection(state, inverted).icon.is_inverted_variant() == inverted,
        !projection(state, inverted).icon.is_muted_variant() ==> state is Bound,
{
}

} // verus!
