//! Colour themes: a fixed mapping from the elements of the display to colours.

use crate::style::Color;
use crate::text::{lowercase_of, str_eq, to_lowercase};
use vstd::prelude::*;

verus! {

/// The colours of every element of the display.
#[derive(Clone, Copy, Debug)]
pub struct Theme {
    pub name: &'static str,
    // Borders
    pub border_focused: Color,
    pub border_unfocused: Color,
    // Header
    pub header_title: Color,
    pub header_filename: Color,
    pub header_bg: Color,
    // Status bar
    pub status_mode_bg: Color,
    pub status_mode_fg: Color,
    pub status_help: Color,
    pub status_bg: Color,
    // Search highlights
    pub highlight_match_bg: Color,
    pub highlight_match_fg: Color,
    // Markdown elements
    pub heading_1: Color,
    pub heading_2: Color,
    pub heading_3: Color,
    pub heading_other: Color,
    pub code_block_bg: Color,
    pub code_inline: Color,
    pub link: Color,
    pub emphasis: Color,
    pub strong: Color,
    pub blockquote: Color,
    pub list_marker: Color,
    pub horizontal_rule: Color,
    // Outline panel
    pub outline_selected: Color,
    pub outline_heading: Color,
    pub outline_current: Color,
    // General text
    pub text: Color,
    pub text_muted: Color,
    // Empty states and messages
    pub empty_state: Color,
    pub warning_message: Color,
    // Help overlay
    pub help_border: Color,
    pub help_bg: Color,
}

impl Theme {
    /// The colours of the theme `default`.
    pub open spec fn default_theme_spec() -> Theme {
        Theme {
            name: "default",
            border_focused: Color::Rgb(99, 179, 237),
            border_unfocused: Color::Rgb(74, 85, 104),
            header_title: Color::Rgb(129, 230, 217),
            header_filename: Color::Rgb(99, 179, 237),
            header_bg: Color::Rgb(26, 32, 44),
            status_mode_bg: Color::Rgb(129, 230, 217),
            status_mode_fg: Color::Rgb(26, 32, 44),
            status_help: Color::Rgb(113, 128, 150),
            status_bg: Color::Rgb(26, 32, 44),
            highlight_match_bg: Color::Rgb(250, 204, 21),
            highlight_match_fg: Color::Rgb(26, 32, 44),
            heading_1: Color::Rgb(246, 135, 179),
            heading_2: Color::Rgb(129, 230, 217),
            heading_3: Color::Rgb(250, 204, 21),
            heading_other: Color::Rgb(183, 148, 244),
            code_block_bg: Color::Rgb(45, 55, 72),
            code_inline: Color::Rgb(245, 158, 11),
            link: Color::Rgb(99, 179, 237),
            emphasis: Color::Rgb(246, 135, 179),
            strong: Color::Rgb(247, 250, 252),
            blockquote: Color::Rgb(113, 128, 150),
            list_marker: Color::Rgb(129, 230, 217),
            horizontal_rule: Color::Rgb(74, 85, 104),
            outline_selected: Color::Rgb(250, 204, 21),
            outline_heading: Color::Rgb(226, 232, 240),
            outline_current: Color::Rgb(129, 230, 217),
            text: Color::Rgb(226, 232, 240),
            text_muted: Color::Rgb(113, 128, 150),
            empty_state: Color::Rgb(113, 128, 150),
            warning_message: Color::Rgb(250, 204, 21),
            help_border: Color::Rgb(183, 148, 244),
            help_bg: Color::Rgb(26, 32, 44),
        }
    }

    /// The colours of the theme `dracula`.
    pub open spec fn dracula_spec() -> Theme {
        Theme {
            name: "dracula",
            border_focused: Color::Rgb(189, 147, 249),
            border_unfocused: Color::Rgb(68, 71, 90),
            header_title: Color::Rgb(80, 250, 123),
            header_filename: Color::Rgb(139, 233, 253),
            header_bg: Color::Rgb(40, 42, 54),
            status_mode_bg: Color::Rgb(189, 147, 249),
            status_mode_fg: Color::Rgb(40, 42, 54),
            status_help: Color::Rgb(98, 114, 164),
            status_bg: Color::Rgb(40, 42, 54),
            highlight_match_bg: Color::Rgb(255, 184, 108),
            highlight_match_fg: Color::Rgb(40, 42, 54),
            heading_1: Color::Rgb(255, 121, 198),
            heading_2: Color::Rgb(189, 147, 249),
            heading_3: Color::Rgb(139, 233, 253),
            heading_other: Color::Rgb(80, 250, 123),
            code_block_bg: Color::Rgb(68, 71, 90),
            code_inline: Color::Rgb(255, 184, 108),
            link: Color::Rgb(139, 233, 253),
            emphasis: Color::Rgb(255, 121, 198),
            strong: Color::Rgb(248, 248, 242),
            blockquote: Color::Rgb(98, 114, 164),
            list_marker: Color::Rgb(255, 121, 198),
            horizontal_rule: Color::Rgb(68, 71, 90),
            outline_selected: Color::Rgb(255, 184, 108),
            outline_heading: Color::Rgb(248, 248, 242),
            outline_current: Color::Rgb(189, 147, 249),
            text: Color::Rgb(248, 248, 242),
            text_muted: Color::Rgb(98, 114, 164),
            empty_state: Color::Rgb(98, 114, 164),
            warning_message: Color::Rgb(255, 184, 108),
            help_border: Color::Rgb(255, 121, 198),
            help_bg: Color::Rgb(40, 42, 54),
        }
    }

    /// The colours of the theme `gruvbox`.
    pub open spec fn gruvbox_spec() -> Theme {
        Theme {
            name: "gruvbox",
            border_focused: Color::Rgb(215, 153, 33),
            border_unfocused: Color::Rgb(102, 92, 84),
            header_title: Color::Rgb(184, 187, 38),
            header_filename: Color::Rgb(131, 165, 152),
            header_bg: Color::Rgb(40, 40, 40),
            status_mode_bg: Color::Rgb(215, 153, 33),
            status_mode_fg: Color::Rgb(40, 40, 40),
            status_help: Color::Rgb(146, 131, 116),
            status_bg: Color::Rgb(40, 40, 40),
            highlight_match_bg: Color::Rgb(254, 128, 25),
            highlight_match_fg: Color::Rgb(40, 40, 40),
            heading_1: Color::Rgb(251, 73, 52),
            heading_2: Color::Rgb(215, 153, 33),
            heading_3: Color::Rgb(184, 187, 38),
            heading_other: Color::Rgb(131, 165, 152),
            code_block_bg: Color::Rgb(60, 56, 54),
            code_inline: Color::Rgb(254, 128, 25),
            link: Color::Rgb(131, 165, 152),
            emphasis: Color::Rgb(211, 134, 155),
            strong: Color::Rgb(235, 219, 178),
            blockquote: Color::Rgb(146, 131, 116),
            list_marker: Color::Rgb(215, 153, 33),
            horizontal_rule: Color::Rgb(102, 92, 84),
            outline_selected: Color::Rgb(254, 128, 25),
            outline_heading: Color::Rgb(235, 219, 178),
            outline_current: Color::Rgb(215, 153, 33),
            text: Color::Rgb(235, 219, 178),
            text_muted: Color::Rgb(146, 131, 116),
            empty_state: Color::Rgb(146, 131, 116),
            warning_message: Color::Rgb(254, 128, 25),
            help_border: Color::Rgb(211, 134, 155),
            help_bg: Color::Rgb(40, 40, 40),
        }
    }

    /// The colours of the theme `nord`.
    pub open spec fn nord_spec() -> Theme {
        Theme {
            name: "nord",
            border_focused: Color::Rgb(136, 192, 208),
            border_unfocused: Color::Rgb(76, 86, 106),
            header_title: Color::Rgb(163, 190, 140),
            header_filename: Color::Rgb(136, 192, 208),
            header_bg: Color::Rgb(46, 52, 64),
            status_mode_bg: Color::Rgb(136, 192, 208),
            status_mode_fg: Color::Rgb(46, 52, 64),
            status_help: Color::Rgb(76, 86, 106),
            status_bg: Color::Rgb(46, 52, 64),
            highlight_match_bg: Color::Rgb(208, 135, 112),
            highlight_match_fg: Color::Rgb(46, 52, 64),
            heading_1: Color::Rgb(191, 97, 106),
            heading_2: Color::Rgb(208, 135, 112),
            heading_3: Color::Rgb(235, 203, 139),
            heading_other: Color::Rgb(163, 190, 140),
            code_block_bg: Color::Rgb(59, 66, 82),
            code_inline: Color::Rgb(208, 135, 112),
            link: Color::Rgb(129, 161, 193),
            emphasis: Color::Rgb(180, 142, 173),
            strong: Color::Rgb(236, 239, 244),
            blockquote: Color::Rgb(76, 86, 106),
            list_marker: Color::Rgb(136, 192, 208),
            horizontal_rule: Color::Rgb(76, 86, 106),
            outline_selected: Color::Rgb(235, 203, 139),
            outline_heading: Color::Rgb(236, 239, 244),
            outline_current: Color::Rgb(136, 192, 208),
            text: Color::Rgb(236, 239, 244),
            text_muted: Color::Rgb(76, 86, 106),
            empty_state: Color::Rgb(76, 86, 106),
            warning_message: Color::Rgb(235, 203, 139),
            help_border: Color::Rgb(180, 142, 173),
            help_bg: Color::Rgb(46, 52, 64),
        }
    }

    /// The colours of the theme `solarized-dark`.
    pub open spec fn solarized_dark_spec() -> Theme {
        Theme {
            name: "solarized-dark",
            border_focused: Color::Rgb(38, 139, 210),
            border_unfocused: Color::Rgb(88, 110, 117),
            header_title: Color::Rgb(133, 153, 0),
            header_filename: Color::Rgb(42, 161, 152),
            header_bg: Color::Rgb(0, 43, 54),
            status_mode_bg: Color::Rgb(38, 139, 210),
            status_mode_fg: Color::Rgb(0, 43, 54),
            status_help: Color::Rgb(88, 110, 117),
            status_bg: Color::Rgb(0, 43, 54),
            highlight_match_bg: Color::Rgb(181, 137, 0),
            highlight_match_fg: Color::Rgb(0, 43, 54),
            heading_1: Color::Rgb(220, 50, 47),
            heading_2: Color::Rgb(203, 75, 22),
            heading_3: Color::Rgb(181, 137, 0),
            heading_other: Color::Rgb(133, 153, 0),
            code_block_bg: Color::Rgb(7, 54, 66),
            code_inline: Color::Rgb(203, 75, 22),
            link: Color::Rgb(38, 139, 210),
            emphasis: Color::Rgb(108, 113, 196),
            strong: Color::Rgb(147, 161, 161),
            blockquote: Color::Rgb(88, 110, 117),
            list_marker: Color::Rgb(42, 161, 152),
            horizontal_rule: Color::Rgb(88, 110, 117),
            outline_selected: Color::Rgb(181, 137, 0),
            outline_heading: Color::Rgb(147, 161, 161),
            outline_current: Color::Rgb(38, 139, 210),
            text: Color::Rgb(147, 161, 161),
            text_muted: Color::Rgb(88, 110, 117),
            empty_state: Color::Rgb(88, 110, 117),
            warning_message: Color::Rgb(181, 137, 0),
            help_border: Color::Rgb(108, 113, 196),
            help_bg: Color::Rgb(0, 43, 54),
        }
    }

    /// The colours of the theme `solarized-light`.
    pub open spec fn solarized_light_spec() -> Theme {
        Theme {
            name: "solarized-light",
            border_focused: Color::Rgb(38, 139, 210),
            border_unfocused: Color::Rgb(147, 161, 161),
            header_title: Color::Rgb(133, 153, 0),
            header_filename: Color::Rgb(42, 161, 152),
            header_bg: Color::Rgb(238, 232, 213),
            status_mode_bg: Color::Rgb(38, 139, 210),
            status_mode_fg: Color::Rgb(253, 246, 227),
            status_help: Color::Rgb(147, 161, 161),
            status_bg: Color::Rgb(238, 232, 213),
            highlight_match_bg: Color::Rgb(181, 137, 0),
            highlight_match_fg: Color::Rgb(253, 246, 227),
            heading_1: Color::Rgb(220, 50, 47),
            heading_2: Color::Rgb(203, 75, 22),
            heading_3: Color::Rgb(181, 137, 0),
            heading_other: Color::Rgb(133, 153, 0),
            code_block_bg: Color::Rgb(253, 246, 227),
            code_inline: Color::Rgb(203, 75, 22),
            link: Color::Rgb(38, 139, 210),
            emphasis: Color::Rgb(108, 113, 196),
            strong: Color::Rgb(88, 110, 117),
            blockquote: Color::Rgb(147, 161, 161),
            list_marker: Color::Rgb(42, 161, 152),
            horizontal_rule: Color::Rgb(147, 161, 161),
            outline_selected: Color::Rgb(181, 137, 0),
            outline_heading: Color::Rgb(88, 110, 117),
            outline_current: Color::Rgb(38, 139, 210),
            text: Color::Rgb(88, 110, 117),
            text_muted: Color::Rgb(147, 161, 161),
            empty_state: Color::Rgb(147, 161, 161),
            warning_message: Color::Rgb(181, 137, 0),
            help_border: Color::Rgb(108, 113, 196),
            help_bg: Color::Rgb(238, 232, 213),
        }
    }

    /// The colours of the theme `monokai`.
    pub open spec fn monokai_spec() -> Theme {
        Theme {
            name: "monokai",
            border_focused: Color::Rgb(249, 38, 114),
            border_unfocused: Color::Rgb(117, 113, 94),
            header_title: Color::Rgb(166, 226, 46),
            header_filename: Color::Rgb(102, 217, 239),
            header_bg: Color::Rgb(39, 40, 34),
            status_mode_bg: Color::Rgb(249, 38, 114),
            status_mode_fg: Color::Rgb(39, 40, 34),
            status_help: Color::Rgb(117, 113, 94),
            status_bg: Color::Rgb(39, 40, 34),
            highlight_match_bg: Color::Rgb(253, 151, 31),
            highlight_match_fg: Color::Rgb(39, 40, 34),
            heading_1: Color::Rgb(249, 38, 114),
            heading_2: Color::Rgb(253, 151, 31),
            heading_3: Color::Rgb(230, 219, 116),
            heading_other: Color::Rgb(166, 226, 46),
            code_block_bg: Color::Rgb(52, 53, 46),
            code_inline: Color::Rgb(253, 151, 31),
            link: Color::Rgb(102, 217, 239),
            emphasis: Color::Rgb(174, 129, 255),
            strong: Color::Rgb(248, 248, 242),
            blockquote: Color::Rgb(117, 113, 94),
            list_marker: Color::Rgb(249, 38, 114),
            horizontal_rule: Color::Rgb(117, 113, 94),
            outline_selected: Color::Rgb(253, 151, 31),
            outline_heading: Color::Rgb(248, 248, 242),
            outline_current: Color::Rgb(249, 38, 114),
            text: Color::Rgb(248, 248, 242),
            text_muted: Color::Rgb(117, 113, 94),
            empty_state: Color::Rgb(117, 113, 94),
            warning_message: Color::Rgb(253, 151, 31),
            help_border: Color::Rgb(174, 129, 255),
            help_bg: Color::Rgb(39, 40, 34),
        }
    }

    /// The colours of the theme `catppuccin`.
    pub open spec fn catppuccin_spec() -> Theme {
        Theme {
            name: "catppuccin",
            border_focused: Color::Rgb(203, 166, 247),
            border_unfocused: Color::Rgb(88, 91, 112),
            header_title: Color::Rgb(166, 227, 161),
            header_filename: Color::Rgb(137, 220, 235),
            header_bg: Color::Rgb(30, 30, 46),
            status_mode_bg: Color::Rgb(203, 166, 247),
            status_mode_fg: Color::Rgb(30, 30, 46),
            status_help: Color::Rgb(108, 112, 134),
            status_bg: Color::Rgb(30, 30, 46),
            highlight_match_bg: Color::Rgb(250, 179, 135),
            highlight_match_fg: Color::Rgb(30, 30, 46),
            heading_1: Color::Rgb(243, 139, 168),
            heading_2: Color::Rgb(203, 166, 247),
            heading_3: Color::Rgb(249, 226, 175),
            heading_other: Color::Rgb(166, 227, 161),
            code_block_bg: Color::Rgb(49, 50, 68),
            code_inline: Color::Rgb(250, 179, 135),
            link: Color::Rgb(137, 180, 250),
            emphasis: Color::Rgb(245, 194, 231),
            strong: Color::Rgb(205, 214, 244),
            blockquote: Color::Rgb(108, 112, 134),
            list_marker: Color::Rgb(243, 139, 168),
            horizontal_rule: Color::Rgb(88, 91, 112),
            outline_selected: Color::Rgb(250, 179, 135),
            outline_heading: Color::Rgb(205, 214, 244),
            outline_current: Color::Rgb(203, 166, 247),
            text: Color::Rgb(205, 214, 244),
            text_muted: Color::Rgb(108, 112, 134),
            empty_state: Color::Rgb(108, 112, 134),
            warning_message: Color::Rgb(250, 179, 135),
            help_border: Color::Rgb(243, 139, 168),
            help_bg: Color::Rgb(30, 30, 46),
        }
    }

    /// The colours of the theme `tokyo-night`.
    pub open spec fn tokyo_night_spec() -> Theme {
        Theme {
            name: "tokyo-night",
            border_focused: Color::Rgb(122, 162, 247),
            border_unfocused: Color::Rgb(65, 72, 104),
            header_title: Color::Rgb(158, 206, 106),
            header_filename: Color::Rgb(125, 207, 255),
            header_bg: Color::Rgb(26, 27, 38),
            status_mode_bg: Color::Rgb(122, 162, 247),
            status_mode_fg: Color::Rgb(26, 27, 38),
            status_help: Color::Rgb(86, 95, 137),
            status_bg: Color::Rgb(26, 27, 38),
            highlight_match_bg: Color::Rgb(255, 158, 100),
            highlight_match_fg: Color::Rgb(26, 27, 38),
            heading_1: Color::Rgb(247, 118, 142),
            heading_2: Color::Rgb(187, 154, 247),
            heading_3: Color::Rgb(224, 175, 104),
            heading_other: Color::Rgb(158, 206, 106),
            code_block_bg: Color::Rgb(41, 46, 66),
            code_inline: Color::Rgb(255, 158, 100),
            link: Color::Rgb(122, 162, 247),
            emphasis: Color::Rgb(187, 154, 247),
            strong: Color::Rgb(192, 202, 245),
            blockquote: Color::Rgb(86, 95, 137),
            list_marker: Color::Rgb(125, 207, 255),
            horizontal_rule: Color::Rgb(65, 72, 104),
            outline_selected: Color::Rgb(255, 158, 100),
            outline_heading: Color::Rgb(192, 202, 245),
            outline_current: Color::Rgb(122, 162, 247),
            text: Color::Rgb(192, 202, 245),
            text_muted: Color::Rgb(86, 95, 137),
            empty_state: Color::Rgb(86, 95, 137),
            warning_message: Color::Rgb(224, 175, 104),
            help_border: Color::Rgb(187, 154, 247),
            help_bg: Color::Rgb(26, 27, 38),
        }
    }

    /// The colours of the theme `onedark`.
    pub open spec fn onedark_spec() -> Theme {
        Theme {
            name: "onedark",
            border_focused: Color::Rgb(97, 175, 239),
            border_unfocused: Color::Rgb(92, 99, 112),
            header_title: Color::Rgb(152, 195, 121),
            header_filename: Color::Rgb(86, 182, 194),
            header_bg: Color::Rgb(40, 44, 52),
            status_mode_bg: Color::Rgb(97, 175, 239),
            status_mode_fg: Color::Rgb(40, 44, 52),
            status_help: Color::Rgb(92, 99, 112),
            status_bg: Color::Rgb(40, 44, 52),
            highlight_match_bg: Color::Rgb(209, 154, 102),
            highlight_match_fg: Color::Rgb(40, 44, 52),
            heading_1: Color::Rgb(224, 108, 117),
            heading_2: Color::Rgb(198, 120, 221),
            heading_3: Color::Rgb(229, 192, 123),
            heading_other: Color::Rgb(152, 195, 121),
            code_block_bg: Color::Rgb(50, 55, 65),
            code_inline: Color::Rgb(209, 154, 102),
            link: Color::Rgb(97, 175, 239),
            emphasis: Color::Rgb(198, 120, 221),
            strong: Color::Rgb(171, 178, 191),
            blockquote: Color::Rgb(92, 99, 112),
            list_marker: Color::Rgb(86, 182, 194),
            horizontal_rule: Color::Rgb(92, 99, 112),
            outline_selected: Color::Rgb(209, 154, 102),
            outline_heading: Color::Rgb(171, 178, 191),
            outline_current: Color::Rgb(97, 175, 239),
            text: Color::Rgb(171, 178, 191),
            text_muted: Color::Rgb(92, 99, 112),
            empty_state: Color::Rgb(92, 99, 112),
            warning_message: Color::Rgb(229, 192, 123),
            help_border: Color::Rgb(198, 120, 221),
            help_bg: Color::Rgb(40, 44, 52),
        }
    }

    /// The colours of the theme `matrix`.
    pub open spec fn matrix_spec() -> Theme {
        Theme {
            name: "matrix",
            border_focused: Color::Rgb(0, 255, 0),
            border_unfocused: Color::Rgb(0, 80, 0),
            header_title: Color::Rgb(0, 255, 0),
            header_filename: Color::Rgb(0, 200, 0),
            header_bg: Color::Black,
            status_mode_bg: Color::Rgb(0, 255, 0),
            status_mode_fg: Color::Black,
            status_help: Color::Rgb(0, 100, 0),
            status_bg: Color::Black,
            highlight_match_bg: Color::Rgb(0, 255, 0),
            highlight_match_fg: Color::Black,
            heading_1: Color::Rgb(0, 255, 0),
            heading_2: Color::Rgb(0, 220, 0),
            heading_3: Color::Rgb(0, 180, 0),
            heading_other: Color::Rgb(0, 150, 0),
            code_block_bg: Color::Rgb(0, 20, 0),
            code_inline: Color::Rgb(100, 255, 100),
            link: Color::Rgb(0, 200, 100),
            emphasis: Color::Rgb(0, 180, 0),
            strong: Color::Rgb(0, 255, 0),
            blockquote: Color::Rgb(0, 100, 0),
            list_marker: Color::Rgb(0, 255, 0),
            horizontal_rule: Color::Rgb(0, 80, 0),
            outline_selected: Color::Rgb(0, 255, 0),
            outline_heading: Color::Rgb(0, 200, 0),
            outline_current: Color::Rgb(0, 255, 0),
            text: Color::Rgb(0, 200, 0),
            text_muted: Color::Rgb(0, 100, 0),
            empty_state: Color::Rgb(0, 80, 0),
            warning_message: Color::Rgb(150, 255, 0),
            help_border: Color::Rgb(0, 255, 0),
            help_bg: Color::Black,
        }
    }

    /// The theme `default`.
    pub fn default_theme() -> (theme: Theme)
        ensures
            theme == Theme::default_theme_spec(),
    {
        Theme {
            name: "default",
            border_focused: Color::Rgb(99, 179, 237),
            border_unfocused: Color::Rgb(74, 85, 104),
            header_title: Color::Rgb(129, 230, 217),
            header_filename: Color::Rgb(99, 179, 237),
            header_bg: Color::Rgb(26, 32, 44),
            status_mode_bg: Color::Rgb(129, 230, 217),
            status_mode_fg: Color::Rgb(26, 32, 44),
            status_help: Color::Rgb(113, 128, 150),
            status_bg: Color::Rgb(26, 32, 44),
            highlight_match_bg: Color::Rgb(250, 204, 21),
            highlight_match_fg: Color::Rgb(26, 32, 44),
            heading_1: Color::Rgb(246, 135, 179),
            heading_2: Color::Rgb(129, 230, 217),
            heading_3: Color::Rgb(250, 204, 21),
            heading_other: Color::Rgb(183, 148, 244),
            code_block_bg: Color::Rgb(45, 55, 72),
            code_inline: Color::Rgb(245, 158, 11),
            link: Color::Rgb(99, 179, 237),
            emphasis: Color::Rgb(246, 135, 179),
            strong: Color::Rgb(247, 250, 252),
            blockquote: Color::Rgb(113, 128, 150),
            list_marker: Color::Rgb(129, 230, 217),
            horizontal_rule: Color::Rgb(74, 85, 104),
            outline_selected: Color::Rgb(250, 204, 21),
            outline_heading: Color::Rgb(226, 232, 240),
            outline_current: Color::Rgb(129, 230, 217),
            text: Color::Rgb(226, 232, 240),
            text_muted: Color::Rgb(113, 128, 150),
            empty_state: Color::Rgb(113, 128, 150),
            warning_message: Color::Rgb(250, 204, 21),
            help_border: Color::Rgb(183, 148, 244),
            help_bg: Color::Rgb(26, 32, 44),
        }
    }

    /// The theme `dracula`.
    pub fn dracula() -> (theme: Theme)
        ensures
            theme == Theme::dracula_spec(),
    {
        Theme {
            name: "dracula",
            border_focused: Color::Rgb(189, 147, 249),
            border_unfocused: Color::Rgb(68, 71, 90),
            header_title: Color::Rgb(80, 250, 123),
            header_filename: Color::Rgb(139, 233, 253),
            header_bg: Color::Rgb(40, 42, 54),
            status_mode_bg: Color::Rgb(189, 147, 249),
            status_mode_fg: Color::Rgb(40, 42, 54),
            status_help: Color::Rgb(98, 114, 164),
            status_bg: Color::Rgb(40, 42, 54),
            highlight_match_bg: Color::Rgb(255, 184, 108),
            highlight_match_fg: Color::Rgb(40, 42, 54),
            heading_1: Color::Rgb(255, 121, 198),
            heading_2: Color::Rgb(189, 147, 249),
            heading_3: Color::Rgb(139, 233, 253),
            heading_other: Color::Rgb(80, 250, 123),
            code_block_bg: Color::Rgb(68, 71, 90),
            code_inline: Color::Rgb(255, 184, 108),
            link: Color::Rgb(139, 233, 253),
            emphasis: Color::Rgb(255, 121, 198),
            strong: Color::Rgb(248, 248, 242),
            blockquote: Color::Rgb(98, 114, 164),
            list_marker: Color::Rgb(255, 121, 198),
            horizontal_rule: Color::Rgb(68, 71, 90),
            outline_selected: Color::Rgb(255, 184, 108),
            outline_heading: Color::Rgb(248, 248, 242),
            outline_current: Color::Rgb(189, 147, 249),
            text: Color::Rgb(248, 248, 242),
            text_muted: Color::Rgb(98, 114, 164),
            empty_state: Color::Rgb(98, 114, 164),
            warning_message: Color::Rgb(255, 184, 108),
            help_border: Color::Rgb(255, 121, 198),
            help_bg: Color::Rgb(40, 42, 54),
        }
    }

    /// The theme `gruvbox`.
    pub fn gruvbox() -> (theme: Theme)
        ensures
            theme == Theme::gruvbox_spec(),
    {
        Theme {
            name: "gruvbox",
            border_focused: Color::Rgb(215, 153, 33),
            border_unfocused: Color::Rgb(102, 92, 84),
            header_title: Color::Rgb(184, 187, 38),
            header_filename: Color::Rgb(131, 165, 152),
            header_bg: Color::Rgb(40, 40, 40),
            status_mode_bg: Color::Rgb(215, 153, 33),
            status_mode_fg: Color::Rgb(40, 40, 40),
            status_help: Color::Rgb(146, 131, 116),
            status_bg: Color::Rgb(40, 40, 40),
            highlight_match_bg: Color::Rgb(254, 128, 25),
            highlight_match_fg: Color::Rgb(40, 40, 40),
            heading_1: Color::Rgb(251, 73, 52),
            heading_2: Color::Rgb(215, 153, 33),
            heading_3: Color::Rgb(184, 187, 38),
            heading_other: Color::Rgb(131, 165, 152),
            code_block_bg: Color::Rgb(60, 56, 54),
            code_inline: Color::Rgb(254, 128, 25),
            link: Color::Rgb(131, 165, 152),
            emphasis: Color::Rgb(211, 134, 155),
            strong: Color::Rgb(235, 219, 178),
            blockquote: Color::Rgb(146, 131, 116),
            list_marker: Color::Rgb(215, 153, 33),
            horizontal_rule: Color::Rgb(102, 92, 84),
            outline_selected: Color::Rgb(254, 128, 25),
            outline_heading: Color::Rgb(235, 219, 178),
            outline_current: Color::Rgb(215, 153, 33),
            text: Color::Rgb(235, 219, 178),
            text_muted: Color::Rgb(146, 131, 116),
            empty_state: Color::Rgb(146, 131, 116),
            warning_message: Color::Rgb(254, 128, 25),
            help_border: Color::Rgb(211, 134, 155),
            help_bg: Color::Rgb(40, 40, 40),
        }
    }

    /// The theme `nord`.
    pub fn nord() -> (theme: Theme)
        ensures
            theme == Theme::nord_spec(),
    {
        Theme {
            name: "nord",
            border_focused: Color::Rgb(136, 192, 208),
            border_unfocused: Color::Rgb(76, 86, 106),
            header_title: Color::Rgb(163, 190, 140),
            header_filename: Color::Rgb(136, 192, 208),
            header_bg: Color::Rgb(46, 52, 64),
            status_mode_bg: Color::Rgb(136, 192, 208),
            status_mode_fg: Color::Rgb(46, 52, 64),
            status_help: Color::Rgb(76, 86, 106),
            status_bg: Color::Rgb(46, 52, 64),
            highlight_match_bg: Color::Rgb(208, 135, 112),
            highlight_match_fg: Color::Rgb(46, 52, 64),
            heading_1: Color::Rgb(191, 97, 106),
            heading_2: Color::Rgb(208, 135, 112),
            heading_3: Color::Rgb(235, 203, 139),
            heading_other: Color::Rgb(163, 190, 140),
            code_block_bg: Color::Rgb(59, 66, 82),
            code_inline: Color::Rgb(208, 135, 112),
            link: Color::Rgb(129, 161, 193),
            emphasis: Color::Rgb(180, 142, 173),
            strong: Color::Rgb(236, 239, 244),
            blockquote: Color::Rgb(76, 86, 106),
            list_marker: Color::Rgb(136, 192, 208),
            horizontal_rule: Color::Rgb(76, 86, 106),
            outline_selected: Color::Rgb(235, 203, 139),
            outline_heading: Color::Rgb(236, 239, 244),
            outline_current: Color::Rgb(136, 192, 208),
            text: Color::Rgb(236, 239, 244),
            text_muted: Color::Rgb(76, 86, 106),
            empty_state: Color::Rgb(76, 86, 106),
            warning_message: Color::Rgb(235, 203, 139),
            help_border: Color::Rgb(180, 142, 173),
            help_bg: Color::Rgb(46, 52, 64),
        }
    }

    /// The theme `solarized-dark`.
    pub fn solarized_dark() -> (theme: Theme)
        ensures
            theme == Theme::solarized_dark_spec(),
    {
        Theme {
            name: "solarized-dark",
            border_focused: Color::Rgb(38, 139, 210),
            border_unfocused: Color::Rgb(88, 110, 117),
            header_title: Color::Rgb(133, 153, 0),
            header_filename: Color::Rgb(42, 161, 152),
            header_bg: Color::Rgb(0, 43, 54),
            status_mode_bg: Color::Rgb(38, 139, 210),
            status_mode_fg: Color::Rgb(0, 43, 54),
            status_help: Color::Rgb(88, 110, 117),
            status_bg: Color::Rgb(0, 43, 54),
            highlight_match_bg: Color::Rgb(181, 137, 0),
            highlight_match_fg: Color::Rgb(0, 43, 54),
            heading_1: Color::Rgb(220, 50, 47),
            heading_2: Color::Rgb(203, 75, 22),
            heading_3: Color::Rgb(181, 137, 0),
            heading_other: Color::Rgb(133, 153, 0),
            code_block_bg: Color::Rgb(7, 54, 66),
            code_inline: Color::Rgb(203, 75, 22),
            link: Color::Rgb(38, 139, 210),
            emphasis: Color::Rgb(108, 113, 196),
            strong: Color::Rgb(147, 161, 161),
            blockquote: Color::Rgb(88, 110, 117),
            list_marker: Color::Rgb(42, 161, 152),
            horizontal_rule: Color::Rgb(88, 110, 117),
            outline_selected: Color::Rgb(181, 137, 0),
            outline_heading: Color::Rgb(147, 161, 161),
            outline_current: Color::Rgb(38, 139, 210),
            text: Color::Rgb(147, 161, 161),
            text_muted: Color::Rgb(88, 110, 117),
            empty_state: Color::Rgb(88, 110, 117),
            warning_message: Color::Rgb(181, 137, 0),
            help_border: Color::Rgb(108, 113, 196),
            help_bg: Color::Rgb(0, 43, 54),
        }
    }

    /// The theme `solarized-light`.
    pub fn solarized_light() -> (theme: Theme)
        ensures
            theme == Theme::solarized_light_spec(),
    {
        Theme {
            name: "solarized-light",
            border_focused: Color::Rgb(38, 139, 210),
            border_unfocused: Color::Rgb(147, 161, 161),
            header_title: Color::Rgb(133, 153, 0),
            header_filename: Color::Rgb(42, 161, 152),
            header_bg: Color::Rgb(238, 232, 213),
            status_mode_bg: Color::Rgb(38, 139, 210),
            status_mode_fg: Color::Rgb(253, 246, 227),
            status_help: Color::Rgb(147, 161, 161),
            status_bg: Color::Rgb(238, 232, 213),
            highlight_match_bg: Color::Rgb(181, 137, 0),
            highlight_match_fg: Color::Rgb(253, 246, 227),
            heading_1: Color::Rgb(220, 50, 47),
            heading_2: Color::Rgb(203, 75, 22),
            heading_3: Color::Rgb(181, 137, 0),
            heading_other: Color::Rgb(133, 153, 0),
            code_block_bg: Color::Rgb(253, 246, 227),
            code_inline: Color::Rgb(203, 75, 22),
            link: Color::Rgb(38, 139, 210),
            emphasis: Color::Rgb(108, 113, 196),
            strong: Color::Rgb(88, 110, 117),
            blockquote: Color::Rgb(147, 161, 161),
            list_marker: Color::Rgb(42, 161, 152),
            horizontal_rule: Color::Rgb(147, 161, 161),
            outline_selected: Color::Rgb(181, 137, 0),
            outline_heading: Color::Rgb(88, 110, 117),
            outline_current: Color::Rgb(38, 139, 210),
            text: Color::Rgb(88, 110, 117),
            text_muted: Color::Rgb(147, 161, 161),
            empty_state: Color::Rgb(147, 161, 161),
            warning_message: Color::Rgb(181, 137, 0),
            help_border: Color::Rgb(108, 113, 196),
            help_bg: Color::Rgb(238, 232, 213),
        }
    }

    /// The theme `monokai`.
    pub fn monokai() -> (theme: Theme)
        ensures
            theme == Theme::monokai_spec(),
    {
        Theme {
            name: "monokai",
            border_focused: Color::Rgb(249, 38, 114),
            border_unfocused: Color::Rgb(117, 113, 94),
            header_title: Color::Rgb(166, 226, 46),
            header_filename: Color::Rgb(102, 217, 239),
            header_bg: Color::Rgb(39, 40, 34),
            status_mode_bg: Color::Rgb(249, 38, 114),
            status_mode_fg: Color::Rgb(39, 40, 34),
            status_help: Color::Rgb(117, 113, 94),
            status_bg: Color::Rgb(39, 40, 34),
            highlight_match_bg: Color::Rgb(253, 151, 31),
            highlight_match_fg: Color::Rgb(39, 40, 34),
            heading_1: Color::Rgb(249, 38, 114),
            heading_2: Color::Rgb(253, 151, 31),
            heading_3: Color::Rgb(230, 219, 116),
            heading_other: Color::Rgb(166, 226, 46),
            code_block_bg: Color::Rgb(52, 53, 46),
            code_inline: Color::Rgb(253, 151, 31),
            link: Color::Rgb(102, 217, 239),
            emphasis: Color::Rgb(174, 129, 255),
            strong: Color::Rgb(248, 248, 242),
            blockquote: Color::Rgb(117, 113, 94),
            list_marker: Color::Rgb(249, 38, 114),
            horizontal_rule: Color::Rgb(117, 113, 94),
            outline_selected: Color::Rgb(253, 151, 31),
            outline_heading: Color::Rgb(248, 248, 242),
            outline_current: Color::Rgb(249, 38, 114),
            text: Color::Rgb(248, 248, 242),
            text_muted: Color::Rgb(117, 113, 94),
            empty_state: Color::Rgb(117, 113, 94),
            warning_message: Color::Rgb(253, 151, 31),
            help_border: Color::Rgb(174, 129, 255),
            help_bg: Color::Rgb(39, 40, 34),
        }
    }

    /// The theme `catppuccin`.
    pub fn catppuccin() -> (theme: Theme)
        ensures
            theme == Theme::catppuccin_spec(),
    {
        Theme {
            name: "catppuccin",
            border_focused: Color::Rgb(203, 166, 247),
            border_unfocused: Color::Rgb(88, 91, 112),
            header_title: Color::Rgb(166, 227, 161),
            header_filename: Color::Rgb(137, 220, 235),
            header_bg: Color::Rgb(30, 30, 46),
            status_mode_bg: Color::Rgb(203, 166, 247),
            status_mode_fg: Color::Rgb(30, 30, 46),
            status_help: Color::Rgb(108, 112, 134),
            status_bg: Color::Rgb(30, 30, 46),
            highlight_match_bg: Color::Rgb(250, 179, 135),
            highlight_match_fg: Color::Rgb(30, 30, 46),
            heading_1: Color::Rgb(243, 139, 168),
            heading_2: Color::Rgb(203, 166, 247),
            heading_3: Color::Rgb(249, 226, 175),
            heading_other: Color::Rgb(166, 227, 161),
            code_block_bg: Color::Rgb(49, 50, 68),
            code_inline: Color::Rgb(250, 179, 135),
            link: Color::Rgb(137, 180, 250),
            emphasis: Color::Rgb(245, 194, 231),
            strong: Color::Rgb(205, 214, 244),
            blockquote: Color::Rgb(108, 112, 134),
            list_marker: Color::Rgb(243, 139, 168),
            horizontal_rule: Color::Rgb(88, 91, 112),
            outline_selected: Color::Rgb(250, 179, 135),
            outline_heading: Color::Rgb(205, 214, 244),
            outline_current: Color::Rgb(203, 166, 247),
            text: Color::Rgb(205, 214, 244),
            text_muted: Color::Rgb(108, 112, 134),
            empty_state: Color::Rgb(108, 112, 134),
            warning_message: Color::Rgb(250, 179, 135),
            help_border: Color::Rgb(243, 139, 168),
            help_bg: Color::Rgb(30, 30, 46),
        }
    }

    /// The theme `tokyo-night`.
    pub fn tokyo_night() -> (theme: Theme)
        ensures
            theme == Theme::tokyo_night_spec(),
    {
        Theme {
            name: "tokyo-night",
            border_focused: Color::Rgb(122, 162, 247),
            border_unfocused: Color::Rgb(65, 72, 104),
            header_title: Color::Rgb(158, 206, 106),
            header_filename: Color::Rgb(125, 207, 255),
            header_bg: Color::Rgb(26, 27, 38),
            status_mode_bg: Color::Rgb(122, 162, 247),
            status_mode_fg: Color::Rgb(26, 27, 38),
            status_help: Color::Rgb(86, 95, 137),
            status_bg: Color::Rgb(26, 27, 38),
            highlight_match_bg: Color::Rgb(255, 158, 100),
            highlight_match_fg: Color::Rgb(26, 27, 38),
            heading_1: Color::Rgb(247, 118, 142),
            heading_2: Color::Rgb(187, 154, 247),
            heading_3: Color::Rgb(224, 175, 104),
            heading_other: Color::Rgb(158, 206, 106),
            code_block_bg: Color::Rgb(41, 46, 66),
            code_inline: Color::Rgb(255, 158, 100),
            link: Color::Rgb(122, 162, 247),
            emphasis: Color::Rgb(187, 154, 247),
            strong: Color::Rgb(192, 202, 245),
            blockquote: Color::Rgb(86, 95, 137),
            list_marker: Color::Rgb(125, 207, 255),
            horizontal_rule: Color::Rgb(65, 72, 104),
            outline_selected: Color::Rgb(255, 158, 100),
            outline_heading: Color::Rgb(192, 202, 245),
            outline_current: Color::Rgb(122, 162, 247),
            text: Color::Rgb(192, 202, 245),
            text_muted: Color::Rgb(86, 95, 137),
            empty_state: Color::Rgb(86, 95, 137),
            warning_message: Color::Rgb(224, 175, 104),
            help_border: Color::Rgb(187, 154, 247),
            help_bg: Color::Rgb(26, 27, 38),
        }
    }

    /// The theme `onedark`.
    pub fn onedark() -> (theme: Theme)
        ensures
            theme == Theme::onedark_spec(),
    {
        Theme {
            name: "onedark",
            border_focused: Color::Rgb(97, 175, 239),
            border_unfocused: Color::Rgb(92, 99, 112),
            header_title: Color::Rgb(152, 195, 121),
            header_filename: Color::Rgb(86, 182, 194),
            header_bg: Color::Rgb(40, 44, 52),
            status_mode_bg: Color::Rgb(97, 175, 239),
            status_mode_fg: Color::Rgb(40, 44, 52),
            status_help: Color::Rgb(92, 99, 112),
            status_bg: Color::Rgb(40, 44, 52),
            highlight_match_bg: Color::Rgb(209, 154, 102),
            highlight_match_fg: Color::Rgb(40, 44, 52),
            heading_1: Color::Rgb(224, 108, 117),
            heading_2: Color::Rgb(198, 120, 221),
            heading_3: Color::Rgb(229, 192, 123),
            heading_other: Color::Rgb(152, 195, 121),
            code_block_bg: Color::Rgb(50, 55, 65),
            code_inline: Color::Rgb(209, 154, 102),
            link: Color::Rgb(97, 175, 239),
            emphasis: Color::Rgb(198, 120, 221),
            strong: Color::Rgb(171, 178, 191),
            blockquote: Color::Rgb(92, 99, 112),
            list_marker: Color::Rgb(86, 182, 194),
            horizontal_rule: Color::Rgb(92, 99, 112),
            outline_selected: Color::Rgb(209, 154, 102),
            outline_heading: Color::Rgb(171, 178, 191),
            outline_current: Color::Rgb(97, 175, 239),
            text: Color::Rgb(171, 178, 191),
            text_muted: Color::Rgb(92, 99, 112),
            empty_state: Color::Rgb(92, 99, 112),
            warning_message: Color::Rgb(229, 192, 123),
            help_border: Color::Rgb(198, 120, 221),
            help_bg: Color::Rgb(40, 44, 52),
        }
    }

    /// The theme `matrix`.
    pub fn matrix() -> (theme: Theme)
        ensures
            theme == Theme::matrix_spec(),
    {
        Theme {
            name: "matrix",
            border_focused: Color::Rgb(0, 255, 0),
            border_unfocused: Color::Rgb(0, 80, 0),
            header_title: Color::Rgb(0, 255, 0),
            header_filename: Color::Rgb(0, 200, 0),
            header_bg: Color::Black,
            status_mode_bg: Color::Rgb(0, 255, 0),
            status_mode_fg: Color::Black,
            status_help: Color::Rgb(0, 100, 0),
            status_bg: Color::Black,
            highlight_match_bg: Color::Rgb(0, 255, 0),
            highlight_match_fg: Color::Black,
            heading_1: Color::Rgb(0, 255, 0),
            heading_2: Color::Rgb(0, 220, 0),
            heading_3: Color::Rgb(0, 180, 0),
            heading_other: Color::Rgb(0, 150, 0),
            code_block_bg: Color::Rgb(0, 20, 0),
            code_inline: Color::Rgb(100, 255, 100),
            link: Color::Rgb(0, 200, 100),
            emphasis: Color::Rgb(0, 180, 0),
            strong: Color::Rgb(0, 255, 0),
            blockquote: Color::Rgb(0, 100, 0),
            list_marker: Color::Rgb(0, 255, 0),
            horizontal_rule: Color::Rgb(0, 80, 0),
            outline_selected: Color::Rgb(0, 255, 0),
            outline_heading: Color::Rgb(0, 200, 0),
            outline_current: Color::Rgb(0, 255, 0),
            text: Color::Rgb(0, 200, 0),
            text_muted: Color::Rgb(0, 100, 0),
            empty_state: Color::Rgb(0, 80, 0),
            warning_message: Color::Rgb(150, 255, 0),
            help_border: Color::Rgb(0, 255, 0),
            help_bg: Color::Black,
        }
    }

    /// The names of the themes, in the order in which the viewer cycles
    /// through them.
    pub open spec fn theme_names() -> Seq<Seq<char>> {
        seq![
            "default"@,
            "dracula"@,
            "gruvbox"@,
            "nord"@,
            "solarized-dark"@,
            "solarized-light"@,
            "monokai"@,
            "catppuccin"@,
            "tokyo-night"@,
            "onedark"@,
            "matrix"@,
        ]
    }

    /// The theme that a name in lower case stands for: the default theme
    /// where the name is not known.
    pub open spec fn named(name: Seq<char>) -> Theme {
        if name == "dracula"@ {
            Theme::dracula_spec()
        } else if name == "gruvbox"@ {
            Theme::gruvbox_spec()
        } else if name == "nord"@ {
            Theme::nord_spec()
        } else if name == "solarized"@ || name == "solarized-dark"@ {
            Theme::solarized_dark_spec()
        } else if name == "solarized-light"@ {
            Theme::solarized_light_spec()
        } else if name == "monokai"@ {
            Theme::monokai_spec()
        } else if name == "catppuccin"@ {
            Theme::catppuccin_spec()
        } else if name == "tokyo-night"@ || name == "tokyonight"@ {
            Theme::tokyo_night_spec()
        } else if name == "onedark"@ || name == "one-dark"@ {
            Theme::onedark_spec()
        } else if name == "matrix"@ {
            Theme::matrix_spec()
        } else {
            Theme::default_theme_spec()
        }
    }

    /// The theme of the given name, whatever the case of its letters; the
    /// default theme where the name is not known.
    pub fn by_name(name: &str) -> (theme: Theme)
        ensures
            theme == Theme::named(lowercase_of(name@)),
    {
        let lower = to_lowercase(name);
        let n = lower.as_str();
        if str_eq(n, "dracula") {
            Theme::dracula()
        } else if str_eq(n, "gruvbox") {
            Theme::gruvbox()
        } else if str_eq(n, "nord") {
            Theme::nord()
        } else if str_eq(n, "solarized") || str_eq(n, "solarized-dark") {
            Theme::solarized_dark()
        } else if str_eq(n, "solarized-light") {
            Theme::solarized_light()
        } else if str_eq(n, "monokai") {
            Theme::monokai()
        } else if str_eq(n, "catppuccin") {
            Theme::catppuccin()
        } else if str_eq(n, "tokyo-night") || str_eq(n, "tokyonight") {
            Theme::tokyo_night()
        } else if str_eq(n, "onedark") || str_eq(n, "one-dark") {
            Theme::onedark()
        } else if str_eq(n, "matrix") {
            Theme::matrix()
        } else {
            Theme::default_theme()
        }
    }

    /// The place of a theme's name in the cycle of themes; the first place for
    /// a name that is not in it.
    pub open spec fn position(name: Seq<char>) -> int {
        if name == "dracula"@ {
            1
        } else if name == "gruvbox"@ {
            2
        } else if name == "nord"@ {
            3
        } else if name == "solarized-dark"@ {
            4
        } else if name == "solarized-light"@ {
            5
        } else if name == "monokai"@ {
            6
        } else if name == "catppuccin"@ {
            7
        } else if name == "tokyo-night"@ {
            8
        } else if name == "onedark"@ {
            9
        } else if name == "matrix"@ {
            10
        } else {
            0
        }
    }

    /// The theme at a place of the cycle.
    pub open spec fn at(index: int) -> Theme {
        if index == 1 {
            Theme::dracula_spec()
        } else if index == 2 {
            Theme::gruvbox_spec()
        } else if index == 3 {
            Theme::nord_spec()
        } else if index == 4 {
            Theme::solarized_dark_spec()
        } else if index == 5 {
            Theme::solarized_light_spec()
        } else if index == 6 {
            Theme::monokai_spec()
        } else if index == 7 {
            Theme::catppuccin_spec()
        } else if index == 8 {
            Theme::tokyo_night_spec()
        } else if index == 9 {
            Theme::onedark_spec()
        } else if index == 10 {
            Theme::matrix_spec()
        } else {
            Theme::default_theme_spec()
        }
    }

    /// The theme that follows this one in the cycle of themes, the first
    /// after the last.
    pub open spec fn next_spec(self) -> Theme {
        Theme::at((Theme::position(self.name@) + 1) % 11)
    }

    /// The theme that follows this one in the cycle of themes, the first
    /// after the last.
    pub fn next(&self) -> (theme: Theme)
        ensures
            theme == self.next_spec(),
    {
        let name = self.name;
        if str_eq(name, "dracula") {
            Theme::gruvbox()
        } else if str_eq(name, "gruvbox") {
            Theme::nord()
        } else if str_eq(name, "nord") {
            Theme::solarized_dark()
        } else if str_eq(name, "solarized-dark") {
            Theme::solarized_light()
        } else if str_eq(name, "solarized-light") {
            Theme::monokai()
        } else if str_eq(name, "monokai") {
            Theme::catppuccin()
        } else if str_eq(name, "catppuccin") {
            Theme::tokyo_night()
        } else if str_eq(name, "tokyo-night") {
            Theme::onedark()
        } else if str_eq(name, "onedark") {
            Theme::matrix()
        } else if str_eq(name, "matrix") {
            Theme::default_theme()
        } else {
            Theme::dracula()
        }
    }

    /// The names of all themes.
    pub fn available_themes() -> (names: Vec<&'static str>)
        ensures
            names.len() == 11,
            forall|i: int| 0 <= i < 11 ==> (#[trigger] names[i])@ == Theme::theme_names()[i],
    {
        vec![
            "default",
            "dracula",
            "gruvbox",
            "nord",
            "solarized-dark",
            "solarized-light",
            "monokai",
            "catppuccin",
            "tokyo-night",
            "onedark",
            "matrix",
        ]
    }
}

impl Default for Theme {
    fn default() -> (theme: Theme)
        ensures
            theme == Theme::default_theme_spec(),
    {
        Theme::default_theme()
    }
}

} // verus!
