//! The windows of the shell and how the spotlight window is made.

use vstd::prelude::*;

verus! {

/// A window of the shell, known to the framework by its label.
#[derive(Clone, Copy, Debug, PartialEq, Eq, Structural)]
pub enum WindowLabel {
    Main,
    Spotlight,
    Splashscreen,
}

impl WindowLabel {
    pub open spec fn spec_label(self) -> Seq<char> {
        match self {
            WindowLabel::Main => "main"@,
            WindowLabel::Spotlight => "spotlight"@,
            WindowLabel::Splashscreen => "splashscreen"@,
        }
    }

    pub fn label(self) -> (label: &'static str)
        ensures
            label@ == self.spec_label(),
    {
        match self {
            WindowLabel::Main => "main",
            WindowLabel::Spotlight => "spotlight",
            WindowLabel::Splashscreen => "splashscreen",
        }
    }
}

/// What the framework is told when a window is built.
#[derive(Clone, Copy, Debug, PartialEq, Eq)]
pub struct WindowConfig {
    pub label: WindowLabel,
    /// Path of the page that the window loads, relative to the bundled
    /// assets.
    pub url: &'static str,
    pub decorations: bool,
    pub resizable: bool,
    pub visible: bool,
}

/// The spotlight window: a bare frame of fixed size that is visible from the
/// moment it is built.
pub fn spotlight_window() -> (config: WindowConfig)
    ensures
        config.label == WindowLabel::Spotlight,
        config.url@ == "spotlight.html"@,
        !config.decorations,
        !config.resizable,
        config.visible,
{
    WindowConfig {
        label: WindowLabel::Spotlight,
        url: "spotlight.html",
        decorations: false,
        resizable: false,
        visible: true,
    }
}

/// No two windows share a label.
pub proof fn lemma_labels_distinct(a: WindowLabel, b: WindowLabel)
    requires
        a.spec_label() == b.spec_label(),
    ensures
        a == b,
{
    reveal_strlit("main");
    reveal_strlit("spotlight");
    reveal_strlit("splashscreen");
    assert("main"@.len() == 4);
    assert("spotlight"@.len() == 9);
    assert("splashscreen"@.len() == 12);
}

} // verus!
