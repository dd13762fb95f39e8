//! The settings menu shown during playback.
use vstd::prelude::*;
use crate::config::Config;
use crate::text::{labeled, labeled_str};

verus! {

/// "Enabled" or "Disabled".
pub open spec fn on_off_word(b: bool) -> Seq<char> {
    if b {
        "Enabled"@
    } else {
        "Disabled"@
    }
}

/// The five lines of the settings list, in menu order.
pub open spec fn settings_lines(c: Config) -> Seq<Seq<char>> {
    seq![
        "Quality: "@ + c.quality_preset.spec_label(),
        "Render Mode: "@ + c.render_mode.spec_label(),
        "Color Mode: "@ + c.color_mode.spec_label(),
        "Hardware Decode: "@ + on_off_word(c.hardware_decode),
        "Dithering: "@ + on_off_word(c.dithering),
    ]
}

/// `c` with settings item `item` (0..=4) advanced: quality, render mode and
/// color mode step to the next value, hardware decoding and dithering flip.
pub open spec fn toggled(c: Config, item: int) -> Config {
    if item == 0 {
        Config { quality_preset: c.quality_preset.spec_next(), ..c }
    } else if item == 1 {
        Config { render_mode: c.render_mode.spec_next(), ..c }
    } else if item == 2 {
        Config { color_mode: c.color_mode.spec_next(), ..c }
    } else if item == 3 {
        Config { hardware_decode: !c.hardware_decode, ..c }
    } else if item == 4 {
        Config { dithering: !c.dithering, ..c }
    } else {
        c
    }
}

/// A five-item menu over a copy of the settings.
pub struct SettingsMenu {
    config: Config,
    selected_item: usize,
}

impl SettingsMenu {
    #[verifier::type_invariant]
    spec fn item_in_menu(&self) -> bool {
        self.selected_item < 5
    }

    pub closed spec fn spec_config(&self) -> Config {
        self.config
    }

    pub closed spec fn spec_selected_item(&self) -> usize {
        self.selected_item
    }

    /// A menu over `config` with the first item selected.
    pub fn new(config: Config) -> (r: Self)
        ensures
            r.spec_config() == config,
            r.spec_selected_item() == 0,
    {
        SettingsMenu { config, selected_item: 0 }
    }

    /// Selects the next item, wrapping from the last to the first.
    pub fn next_item(&mut self)
        ensures
            final(self).spec_selected_item() == (old(self).spec_selected_item() + 1) % 5,
            final(self).spec_config() == old(self).spec_config(),
    {
        proof {
            use_type_invariant(&*self);
        }
        self.selected_item = (self.selected_item + 1) % 5;
    }

    /// Selects the previous item, wrapping from the first to the last.
    pub fn prev_item(&mut self)
        ensures
            final(self).spec_selected_item() == (if old(self).spec_selected_item() == 0 {
                4
            } else {
                old(self).spec_selected_item() - 1
            }),
            final(self).spec_config() == old(self).spec_config(),
    {
        proof {
            use_type_invariant(&*self);
        }
        if self.selected_item == 0 {
            self.selected_item = 4;
        } else {
            self.selected_item = self.selected_item - 1;
        }
    }

    /// Advances the selected setting (see `toggled`).
    pub fn toggle_current_item(&mut self)
        ensures
            final(self).spec_config() == toggled(old(self).spec_config(), old(self).spec_selected_item() as int),
            final(self).spec_selected_item() == old(self).spec_selected_item(),
    {
        if self.selected_item == 0 {
            self.config.quality_preset = self.config.quality_preset.next();
        } else if self.selected_item == 1 {
            self.config.render_mode = self.config.render_mode.next();
        } else if self.selected_item == 2 {
            self.config.color_mode = self.config.color_mode.next();
        } else if self.selected_item == 3 {
            self.config.hardware_decode = !self.config.hardware_decode;
        } else if self.selected_item == 4 {
            self.config.dithering = !self.config.dithering;
        }
    }

    pub fn config(&self) -> (r: &Config)
        ensures
            *r == self.spec_config(),
    {
        &self.config
    }

    /// The texts of the five menu lines (see `settings_lines`).
    pub fn item_labels(&self) -> (r: Vec<String>)
        ensures
            r@.len() == 5,
            forall|i: int| 0 <= i < 5 ==> #[trigger] r@[i]@ == settings_lines(self.spec_config())[i],
    {
        let c = &self.config;
        let mut r: Vec<String> = Vec::new();
        r.push(labeled("Quality: ", &c.quality_preset.label()));
        r.push(labeled("Render Mode: ", &c.render_mode.label()));
        r.push(labeled("Color Mode: ", &c.color_mode.label()));
        r.push(labeled_str("Hardware Decode: ", if c.hardware_decode { "Enabled" } else { "Disabled" }));
        r.push(labeled_str("Dithering: ", if c.dithering { "Enabled" } else { "Disabled" }));
        r
    }
}

/// Stepping to the next menu item and back (or back and then forward) returns
/// to the same item.
pub proof fn menu_steps_undo(i: int)
    requires
        0 <= i < 5,
    ensures
        (if (i + 1) % 5 == 0 { 4 } else { (i + 1) % 5 - 1 }) == i,
        ((if i == 0 { 4 } else { i - 1 }) + 1) % 5 == i,
{
}

/// Flipping hardware decoding or dithering twice restores the settings;
/// stepping the quality four times, the render mode three times or the color
/// mode four times restores them too.
pub proof fn toggling_returns(c: Config)
    ensures
        toggled(toggled(c, 3), 3) == c,
        toggled(toggled(c, 4), 4) == c,
        toggled(toggled(toggled(toggled(c, 0), 0), 0), 0) == c,
        toggled(toggled(toggled(c, 1), 1), 1) == c,
        toggled(toggled(toggled(toggled(c, 2), 2), 2), 2) == c,
{
}

} // verus!
