//! Which controls a screen gets: the choice among the ready-made groups of
//! buttons that the screens to confirm something and to show a message
//! make from their arguments.
use vstd::prelude::*;
use crate::button::{
    Button,
    ButtonContent,
    ButtonStyleSheet,
    CancelConfirm,
    CancelConfirmMsg,
    OnClick,
};
use crate::display::{Icon, Label};
use crate::msg_map::MsgMap;
use crate::placed::FixedHeightBar;
use crate::theme;

verus! {

/// A bar with a single button that confirms.
pub type ConfirmBar<T> = FixedHeightBar<MsgMap<Button<T>, OnClick<CancelConfirmMsg>>>;

/// The controls below the content that is to be confirmed.
pub enum ConfirmControls<T> {
    /// The screen is confirmed by holding: it brings its own control.
    Hold,
    /// Buttons to cancel and to confirm.
    Buttons(CancelConfirm<T>),
}

/// The controls of a screen that asks to confirm a piece of data. Held
/// confirmation goes before buttons; without it the button to confirm
/// carries `verb`, and the button to cancel carries `verb_cancel` or, for
/// want of it, the icon. One of `hold` and `verb` has to be given.
pub fn confirm_blob<T>(verb: Option<T>, verb_cancel: Option<T>, hold: bool) -> (controls:
    ConfirmControls<T>)
    requires
        hold || verb is Some,
    ensures
        hold ==> controls is Hold,
        !hold ==> controls == ConfirmControls::Buttons(
            Button::spec_cancel_confirm(
                match verb_cancel {
                    Some(text) => Button::spec_new(ButtonContent::Text(text)),
                    None => Button::spec_new(
                        ButtonContent::Icon(Icon { id: theme::ICON_CANCEL }),
                    ),
                },
                Button {
                    styles: theme::spec_button_confirm(),
                    ..Button::spec_new(ButtonContent::Text(verb->0))
                },
                if verb_cancel is Some {
                    1
                } else {
                    2
                },
            ),
        ),
{
    if hold {
        ConfirmControls::Hold
    } else {
        match verb {
            Some(verb) => ConfirmControls::Buttons(Button::cancel_confirm_text(verb_cancel, verb)),
            None => vstd::pervasive::unreached(),
        }
    }
}

/// The controls of a screen that shows a message.
pub enum ModalControls<T> {
    /// Nothing: the screen is drawn once and left alone.
    Nothing,
    /// No button; the screen counts as confirmed after this many
    /// milliseconds.
    Timeout(u32),
    /// The icon to cancel and, twice as wide, the button to continue.
    CancelConfirm(CancelConfirm<T>),
    /// The button to continue alone.
    Confirm(ConfirmBar<T>),
}

/// The controls of a screen that shows a message with one `button`. An
/// empty button text means no buttons at all: the screen then ends by
/// itself after `time_ms`, or never if that is zero. Otherwise the button
/// is in `button_style`, and the icon to cancel stands beside it if
/// `allow_cancel`.
pub fn new_show_modal<T: Label>(
    button: T,
    allow_cancel: bool,
    time_ms: u32,
    button_style: ButtonStyleSheet,
) -> (controls: ModalControls<T>)
    ensures
        controls == (if button.text().len() == 0 {
            if time_ms == 0 {
                ModalControls::Nothing
            } else {
                ModalControls::Timeout(time_ms)
            }
        } else if allow_cancel {
            ModalControls::CancelConfirm(
                Button::spec_cancel_confirm(
                    Button {
                        styles: theme::spec_button_cancel(),
                        ..Button::spec_new(ButtonContent::Icon(Icon { id: theme::ICON_CANCEL }))
                    },
                    Button { styles: button_style, ..Button::spec_new(ButtonContent::Text(button)) },
                    2,
                ),
            )
        } else {
            ModalControls::Confirm(
                FixedHeightBar {
                    inner: MsgMap {
                        inner: Button {
                            styles: button_style,
                            ..Button::spec_new(ButtonContent::Text(button))
                        },
                        func: OnClick { out: CancelConfirmMsg::Confirmed },
                    },
                    height: theme::BUTTON_HEIGHT,
                },
            )
        }),
{
    let no_buttons = button.as_str().is_empty();
    if no_buttons && time_ms == 0 {
        ModalControls::Nothing
    } else if no_buttons {
        ModalControls::Timeout(time_ms)
    } else if allow_cancel {
        ModalControls::CancelConfirm(
            Button::cancel_confirm(
                Button::with_icon(Icon::new(theme::ICON_CANCEL)).styled(theme::button_cancel()),
                Button::with_text(button).styled(button_style),
                2,
            ),
        )
    } else {
        ModalControls::Confirm(
            theme::button_bar(
                MsgMap::new(
                    Button::with_text(button).styled(button_style),
                    OnClick { out: CancelConfirmMsg::Confirmed },
                ),
            ),
        )
    }
}

} // verus!
