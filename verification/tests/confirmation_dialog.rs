use ccf_gpui_widgets::theme::Theme;
use ccf_gpui_widgets::widgets::confirmation_dialog::{
    ConfirmationDialog, ConfirmationDialogEvent, DialogButton, DialogKeyAction, DialogStyle,
};

#[test]
fn new_dialog_defaults() {
    let d = ConfirmationDialog::new("Confirm", "Are you sure?");
    assert_eq!(d.title(), "Confirm");
    assert_eq!(d.message(), "Are you sure?");
    assert_eq!(d.primary_text(), "OK");
    assert_eq!(d.secondary_text(), None);
    assert_eq!(d.tertiary_text(), None);
    assert_eq!(d.dialog_style(), DialogStyle::Default);
    assert_eq!(DialogStyle::default(), DialogStyle::Default);
    assert!(d.custom_theme().is_none());
}

#[test]
fn mapped_keys_are_case_insensitive() {
    let d = ConfirmationDialog::new("Confirm", "Are you sure?")
        .primary_label("Yes")
        .secondary_label("No")
        .map_key("y", DialogButton::Primary)
        .map_key("N", DialogButton::Secondary);
    assert_eq!(d.key_action("y", false), DialogKeyAction::Press(DialogButton::Primary));
    assert_eq!(d.key_action("Y", false), DialogKeyAction::Press(DialogButton::Primary));
    assert_eq!(d.key_action("n", true), DialogKeyAction::Press(DialogButton::Secondary));
    assert_eq!(d.key_action("x", false), DialogKeyAction::Ignore);
}

#[test]
fn remapping_a_key_replaces_its_button() {
    let d = ConfirmationDialog::new("Save", "Save before closing?")
        .secondary_label("Cancel")
        .tertiary_label("Don't Save")
        .map_key("n", DialogButton::Secondary)
        .map_key("n", DialogButton::Tertiary);
    assert_eq!(d.key_action("n", false), DialogKeyAction::Press(DialogButton::Tertiary));
}

#[test]
fn binding_to_a_hidden_button_falls_back_to_defaults() {
    let d = ConfirmationDialog::new("Info", "Done").map_key("escape", DialogButton::Secondary);
    // no secondary button: escape falls through to its default, the primary
    assert_eq!(d.key_action("Escape", false), DialogKeyAction::Press(DialogButton::Primary));
    let t = ConfirmationDialog::new("Info", "Done").map_key("t", DialogButton::Tertiary);
    assert_eq!(t.key_action("t", false), DialogKeyAction::Ignore);
}

#[test]
fn default_keys_by_style() {
    let plain = ConfirmationDialog::new("Confirm", "Sure?").secondary_label("Cancel");
    assert_eq!(plain.key_action("escape", false), DialogKeyAction::Press(DialogButton::Secondary));
    assert_eq!(plain.key_action("enter", false), DialogKeyAction::Press(DialogButton::Primary));
    assert_eq!(plain.key_action("tab", false), DialogKeyAction::FocusNext);
    assert_eq!(plain.key_action("tab", true), DialogKeyAction::FocusPrev);

    let danger = ConfirmationDialog::new("Delete", "Really?")
        .secondary_label("Cancel")
        .style(DialogStyle::Danger);
    assert_eq!(danger.key_action("enter", false), DialogKeyAction::Ignore);
    assert_eq!(danger.key_action("escape", false), DialogKeyAction::Press(DialogButton::Secondary));

    let info = ConfirmationDialog::new("Saved", "Done").style(DialogStyle::Info);
    assert_eq!(info.key_action("escape", false), DialogKeyAction::Press(DialogButton::Primary));
    assert_eq!(info.key_action("Enter", false), DialogKeyAction::Press(DialogButton::Primary));
}

#[test]
fn click_outside_by_style() {
    let info = ConfirmationDialog::new("Saved", "Done").style(DialogStyle::Info);
    assert_eq!(info.click_outside(), Some(DialogButton::Primary));
    let plain = ConfirmationDialog::new("Confirm", "Sure?");
    assert_eq!(plain.click_outside(), None);
    let with_cancel = ConfirmationDialog::new("Confirm", "Sure?").secondary_label("Cancel");
    assert_eq!(with_cancel.click_outside(), Some(DialogButton::Secondary));
    let warning = with_cancel.style(DialogStyle::Warning);
    assert_eq!(warning.click_outside(), Some(DialogButton::Secondary));
    let danger = ConfirmationDialog::new("Delete", "Really?")
        .secondary_label("Cancel")
        .style(DialogStyle::Danger);
    assert_eq!(danger.click_outside(), None);
}

#[test]
fn buttons_emit_their_events() {
    let d = ConfirmationDialog::new("a", "b");
    assert_eq!(d.emit_button(DialogButton::Primary), ConfirmationDialogEvent::Primary);
    assert_eq!(d.emit_button(DialogButton::Secondary), ConfirmationDialogEvent::Secondary);
    assert_eq!(d.emit_button(DialogButton::Tertiary), ConfirmationDialogEvent::Tertiary);
}

#[test]
fn title_colors_follow_the_style() {
    let theme = Theme::dark();
    let d = ConfirmationDialog::new("a", "b").theme(theme);
    assert_eq!(d.title_color(&theme), theme.text_primary);
    assert_eq!(d.custom_theme().unwrap().primary, theme.primary);
    let d = d.style(DialogStyle::Info);
    assert_eq!(d.title_color(&theme), theme.primary);
    let d = d.style(DialogStyle::Warning);
    assert_eq!(d.title_color(&theme), theme.warning);
    let d = d.style(DialogStyle::Danger);
    assert_eq!(d.title_color(&theme), theme.error);
}
