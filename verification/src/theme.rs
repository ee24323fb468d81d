//! Color themes: a plain data table of named palettes with a default
//! fallback, selected by a case-insensitive name.

use vstd::prelude::*;

verus! {

/// One color as red, green and blue components.
#[derive(Debug, Clone, Copy, PartialEq, Eq, Structural)]
pub struct Rgb {
    /// Red component.
    pub r: u8,
    /// Green component.
    pub g: u8,
    /// Blue component.
    pub b: u8,
}

/// Mathematical value of a [`Theme`].
#[verifier::ext_equal]
pub ghost struct ThemeView {
    pub name: Seq<char>,
    pub display_name: Seq<char>,
    pub base: Rgb,
    pub surface: Rgb,
    pub overlay: Rgb,
    pub text: Rgb,
    pub subtext: Rgb,
    pub accent: Rgb,
    pub accent_secondary: Rgb,
    pub success: Rgb,
    pub error: Rgb,
    pub warning: Rgb,
    pub info: Rgb,
    pub staged: Rgb,
    pub unstaged: Rgb,
    pub untracked: Rgb,
    pub selection: Rgb,
    pub selection_text: Rgb,
    pub border: Rgb,
}

/// Application theme with semantic colors.
#[derive(Debug, Clone)]
pub struct Theme {
    /// Theme name.
    pub name: String,
    /// Display name for the theme.
    pub display_name: String,
    /// Main background color.
    pub base: Rgb,
    /// Surface/section background color.
    pub surface: Rgb,
    /// Overlay/popup background color.
    pub overlay: Rgb,
    /// Primary text color.
    pub text: Rgb,
    /// Secondary/dimmed text color.
    pub subtext: Rgb,
    /// Primary accent color.
    pub accent: Rgb,
    /// Secondary accent color.
    pub accent_secondary: Rgb,
    /// Success/added color.
    pub success: Rgb,
    /// Error/deleted color.
    pub error: Rgb,
    /// Warning/modified color.
    pub warning: Rgb,
    /// Info color.
    pub info: Rgb,
    /// Staged files indicator color.
    pub staged: Rgb,
    /// Unstaged files indicator color.
    pub unstaged: Rgb,
    /// Untracked files color.
    pub untracked: Rgb,
    /// Selection background color.
    pub selection: Rgb,
    /// Selection text color.
    pub selection_text: Rgb,
    /// Border color.
    pub border: Rgb,
}

impl View for Theme {
    type V = ThemeView;

    open spec fn view(&self) -> ThemeView {
        ThemeView {
            name: self.name@,
            display_name: self.display_name@,
            base: self.base,
            surface: self.surface,
            overlay: self.overlay,
            text: self.text,
            subtext: self.subtext,
            accent: self.accent,
            accent_secondary: self.accent_secondary,
            success: self.success,
            error: self.error,
            warning: self.warning,
            info: self.info,
            staged: self.staged,
            unstaged: self.unstaged,
            untracked: self.untracked,
            selection: self.selection,
            selection_text: self.selection_text,
            border: self.border,
        }
    }
}

/// The Catppuccin Mocha palette.
pub open spec fn spec_catppuccin() -> ThemeView {
    ThemeView {
        name: "catppuccin"@,
        display_name: "Catppuccin Mocha"@,
        base: Rgb { r: 30, g: 30, b: 46 },
        surface: Rgb { r: 49, g: 50, b: 68 },
        overlay: Rgb { r: 69, g: 71, b: 90 },
        text: Rgb { r: 205, g: 214, b: 244 },
        subtext: Rgb { r: 166, g: 173, b: 200 },
        accent: Rgb { r: 203, g: 166, b: 247 },
        accent_secondary: Rgb { r: 245, g: 194, b: 231 },
        success: Rgb { r: 166, g: 227, b: 161 },
        error: Rgb { r: 243, g: 139, b: 168 },
        warning: Rgb { r: 249, g: 226, b: 175 },
        info: Rgb { r: 137, g: 180, b: 250 },
        staged: Rgb { r: 166, g: 227, b: 161 },
        unstaged: Rgb { r: 249, g: 226, b: 175 },
        untracked: Rgb { r: 147, g: 153, b: 178 },
        selection: Rgb { r: 69, g: 71, b: 90 },
        selection_text: Rgb { r: 205, g: 214, b: 244 },
        border: Rgb { r: 88, g: 91, b: 112 },
    }
}

/// The Nord palette.
pub open spec fn spec_nord() -> ThemeView {
    ThemeView {
        name: "nord"@,
        display_name: "Nord"@,
        base: Rgb { r: 46, g: 52, b: 64 },
        surface: Rgb { r: 59, g: 66, b: 82 },
        overlay: Rgb { r: 67, g: 76, b: 94 },
        text: Rgb { r: 236, g: 239, b: 244 },
        subtext: Rgb { r: 216, g: 222, b: 233 },
        accent: Rgb { r: 136, g: 192, b: 208 },
        accent_secondary: Rgb { r: 129, g: 161, b: 193 },
        success: Rgb { r: 163, g: 190, b: 140 },
        error: Rgb { r: 191, g: 97, b: 106 },
        warning: Rgb { r: 235, g: 203, b: 139 },
        info: Rgb { r: 129, g: 161, b: 193 },
        staged: Rgb { r: 163, g: 190, b: 140 },
        unstaged: Rgb { r: 235, g: 203, b: 139 },
        untracked: Rgb { r: 76, g: 86, b: 106 },
        selection: Rgb { r: 67, g: 76, b: 94 },
        selection_text: Rgb { r: 236, g: 239, b: 244 },
        border: Rgb { r: 76, g: 86, b: 106 },
    }
}

/// The Tokyo Night palette.
pub open spec fn spec_tokyo_night() -> ThemeView {
    ThemeView {
        name: "tokyo-night"@,
        display_name: "Tokyo Night"@,
        base: Rgb { r: 26, g: 27, b: 38 },
        surface: Rgb { r: 36, g: 40, b: 59 },
        overlay: Rgb { r: 65, g: 72, b: 104 },
        text: Rgb { r: 169, g: 177, b: 214 },
        subtext: Rgb { r: 86, g: 95, b: 137 },
        accent: Rgb { r: 187, g: 154, b: 247 },
        accent_secondary: Rgb { r: 255, g: 0, b: 127 },
        success: Rgb { r: 158, g: 206, b: 106 },
        error: Rgb { r: 247, g: 118, b: 142 },
        warning: Rgb { r: 224, g: 175, b: 104 },
        info: Rgb { r: 125, g: 207, b: 255 },
        staged: Rgb { r: 158, g: 206, b: 106 },
        unstaged: Rgb { r: 224, g: 175, b: 104 },
        untracked: Rgb { r: 86, g: 95, b: 137 },
        selection: Rgb { r: 65, g: 72, b: 104 },
        selection_text: Rgb { r: 169, g: 177, b: 214 },
        border: Rgb { r: 41, g: 46, b: 66 },
    }
}

/// The Dracula palette.
pub open spec fn spec_dracula() -> ThemeView {
    ThemeView {
        name: "dracula"@,
        display_name: "Dracula"@,
        base: Rgb { r: 40, g: 42, b: 54 },
        surface: Rgb { r: 68, g: 71, b: 90 },
        overlay: Rgb { r: 98, g: 114, b: 164 },
        text: Rgb { r: 248, g: 248, b: 242 },
        subtext: Rgb { r: 98, g: 114, b: 164 },
        accent: Rgb { r: 189, g: 147, b: 249 },
        accent_secondary: Rgb { r: 255, g: 121, b: 198 },
        success: Rgb { r: 80, g: 250, b: 123 },
        error: Rgb { r: 255, g: 85, b: 85 },
        warning: Rgb { r: 241, g: 250, b: 140 },
        info: Rgb { r: 139, g: 233, b: 253 },
        staged: Rgb { r: 80, g: 250, b: 123 },
        unstaged: Rgb { r: 241, g: 250, b: 140 },
        untracked: Rgb { r: 98, g: 114, b: 164 },
        selection: Rgb { r: 68, g: 71, b: 90 },
        selection_text: Rgb { r: 248, g: 248, b: 242 },
        border: Rgb { r: 98, g: 114, b: 164 },
    }
}

/// Whether `a` reads as `b` once ASCII upper-case letters are lowered;
/// `b` is expected to be already lower-case.
pub open spec fn lower_matches(a: char, b: char) -> bool {
    a == b || ('A' <= a <= 'Z' && a as u32 + 32 == b as u32)
}

/// Whether the name `n` spells `t` up to ASCII case.
pub open spec fn name_matches(n: Seq<char>, t: Seq<char>) -> bool {
    n.len() == t.len() && forall|i: int| 0 <= i < n.len() ==> lower_matches(#[trigger] n[i], t[i])
}

/// The palette a configured scheme name selects, matched up to ASCII
/// case; an unknown name falls back to the default palette.
pub open spec fn spec_from_name(name: Seq<char>) -> ThemeView {
    if name_matches(name, "nord"@) {
        spec_nord()
    } else if name_matches(name, "tokyo-night"@) || name_matches(name, "tokyonight"@) {
        spec_tokyo_night()
    } else if name_matches(name, "dracula"@) {
        spec_dracula()
    } else {
        spec_catppuccin()
    }
}

/// Whether the name `n` spells the lower-case word `t` up to ASCII
/// case, as [`name_matches`] describes.
fn matches_name(n: &str, t: &str) -> (r: bool)
    ensures
        r == name_matches(n@, t@),
{
    let nn = n.unicode_len();
    let nt = t.unicode_len();
    if nn != nt {
        return false;
    }
    let mut i: usize = 0;
    while i < nn
        invariant
            i <= nn,
            nn == n@.len(),
            nn == t@.len(),
            forall|j: int| 0 <= j < i ==> lower_matches(#[trigger] n@[j], t@[j]),
        decreases nn - i,
    {
        let a = n.get_char(i);
        let b = t.get_char(i);
        let matches_here = a == b || ('A' <= a && a <= 'Z' && (a as u32) + 32 == (b as u32));
        if !matches_here {
            return false;
        }
        i += 1;
    }
    true
}

impl Theme {
    /// Get a theme by its configured name, matched without regard to
    /// ASCII case; unknown names fall back to the default palette.
    pub fn from_name(name: &str) -> (r: Theme)
        ensures
            r@ == spec_from_name(name@),
    {
        if matches_name(name, "nord") {
            Self::nord()
        } else if matches_name(name, "tokyo-night") || matches_name(name, "tokyonight") {
            Self::tokyo_night()
        } else if matches_name(name, "dracula") {
            Self::dracula()
        } else {
            Self::catppuccin()
        }
    }

    /// The Catppuccin Mocha theme.
    pub fn catppuccin() -> (r: Theme)
        ensures
            r@ == spec_catppuccin(),
    {
        let r = Theme {
            name: String::from_str("catppuccin"),
            display_name: String::from_str("Catppuccin Mocha"),
            base: Rgb { r: 30, g: 30, b: 46 },
            surface: Rgb { r: 49, g: 50, b: 68 },
            overlay: Rgb { r: 69, g: 71, b: 90 },
            text: Rgb { r: 205, g: 214, b: 244 },
            subtext: Rgb { r: 166, g: 173, b: 200 },
            accent: Rgb { r: 203, g: 166, b: 247 },
            accent_secondary: Rgb { r: 245, g: 194, b: 231 },
            success: Rgb { r: 166, g: 227, b: 161 },
            error: Rgb { r: 243, g: 139, b: 168 },
            warning: Rgb { r: 249, g: 226, b: 175 },
            info: Rgb { r: 137, g: 180, b: 250 },
            staged: Rgb { r: 166, g: 227, b: 161 },
            unstaged: Rgb { r: 249, g: 226, b: 175 },
            untracked: Rgb { r: 147, g: 153, b: 178 },
            selection: Rgb { r: 69, g: 71, b: 90 },
            selection_text: Rgb { r: 205, g: 214, b: 244 },
            border: Rgb { r: 88, g: 91, b: 112 },
        };
        proof {
            assert(r@ =~= spec_catppuccin());
        }
        r
    }

    /// The Nord theme.
    pub fn nord() -> (r: Theme)
        ensures
            r@ == spec_nord(),
    {
        let r = Theme {
            name: String::from_str("nord"),
            display_name: String::from_str("Nord"),
            base: Rgb { r: 46, g: 52, b: 64 },
            surface: Rgb { r: 59, g: 66, b: 82 },
            overlay: Rgb { r: 67, g: 76, b: 94 },
            text: Rgb { r: 236, g: 239, b: 244 },
            subtext: Rgb { r: 216, g: 222, b: 233 },
            accent: Rgb { r: 136, g: 192, b: 208 },
            accent_secondary: Rgb { r: 129, g: 161, b: 193 },
            success: Rgb { r: 163, g: 190, b: 140 },
            error: Rgb { r: 191, g: 97, b: 106 },
            warning: Rgb { r: 235, g: 203, b: 139 },
            info: Rgb { r: 129, g: 161, b: 193 },
            staged: Rgb { r: 163, g: 190, b: 140 },
            unstaged: Rgb { r: 235, g: 203, b: 139 },
            untracked: Rgb { r: 76, g: 86, b: 106 },
            selection: Rgb { r: 67, g: 76, b: 94 },
            selection_text: Rgb { r: 236, g: 239, b: 244 },
            border: Rgb { r: 76, g: 86, b: 106 },
        };
        proof {
            assert(r@ =~= spec_nord());
        }
        r
    }

    /// The Tokyo Night theme.
    pub fn tokyo_night() -> (r: Theme)
        ensures
            r@ == spec_tokyo_night(),
    {
        let r = Theme {
            name: String::from_str("tokyo-night"),
            display_name: String::from_str("Tokyo Night"),
            base: Rgb { r: 26, g: 27, b: 38 },
            surface: Rgb { r: 36, g: 40, b: 59 },
            overlay: Rgb { r: 65, g: 72, b: 104 },
            text: Rgb { r: 169, g: 177, b: 214 },
            subtext: Rgb { r: 86, g: 95, b: 137 },
            accent: Rgb { r: 187, g: 154, b: 247 },
            accent_secondary: Rgb { r: 255, g: 0, b: 127 },
            success: Rgb { r: 158, g: 206, b: 106 },
            error: Rgb { r: 247, g: 118, b: 142 },
            warning: Rgb { r: 224, g: 175, b: 104 },
            info: Rgb { r: 125, g: 207, b: 255 },
            staged: Rgb { r: 158, g: 206, b: 106 },
            unstaged: Rgb { r: 224, g: 175, b: 104 },
            untracked: Rgb { r: 86, g: 95, b: 137 },
            selection: Rgb { r: 65, g: 72, b: 104 },
            selection_text: Rgb { r: 169, g: 177, b: 214 },
            border: Rgb { r: 41, g: 46, b: 66 },
        };
        proof {
            assert(r@ =~= spec_tokyo_night());
        }
        r
    }

    /// The Dracula theme.
    pub fn dracula() -> (r: Theme)
        ensures
            r@ == spec_dracula(),
    {
        let r = Theme {
            name: String::from_str("dracula"),
            display_name: String::from_str("Dracula"),
            base: Rgb { r: 40, g: 42, b: 54 },
            surface: Rgb { r: 68, g: 71, b: 90 },
            overlay: Rgb { r: 98, g: 114, b: 164 },
            text: Rgb { r: 248, g: 248, b: 242 },
            subtext: Rgb { r: 98, g: 114, b: 164 },
            accent: Rgb { r: 189, g: 147, b: 249 },
            accent_secondary: Rgb { r: 255, g: 121, b: 198 },
            success: Rgb { r: 80, g: 250, b: 123 },
            error: Rgb { r: 255, g: 85, b: 85 },
            warning: Rgb { r: 241, g: 250, b: 140 },
            info: Rgb { r: 139, g: 233, b: 253 },
            staged: Rgb { r: 80, g: 250, b: 123 },
            unstaged: Rgb { r: 241, g: 250, b: 140 },
            untracked: Rgb { r: 98, g: 114, b: 164 },
            selection: Rgb { r: 68, g: 71, b: 90 },
            selection_text: Rgb { r: 248, g: 248, b: 242 },
            border: Rgb { r: 98, g: 114, b: 164 },
        };
        proof {
            assert(r@ =~= spec_dracula());
        }
        r
    }

    /// The semantic color a file's status kind is drawn with:
    /// modifications in the warning color, additions in the success
    /// color, deletions in the error color, renames and copies in the
    /// info color, untracked files in their own shade, and unmerged
    /// files in the accent color.
    pub fn status_color(&self, status: crate::status::FileStatusType) -> (r: Rgb)
        ensures
            r == (match status {
                crate::status::FileStatusType::Modified => self.warning,
                crate::status::FileStatusType::Added => self.success,
                crate::status::FileStatusType::Deleted => self.error,
                crate::status::FileStatusType::Renamed => self.info,
                crate::status::FileStatusType::Copied => self.info,
                crate::status::FileStatusType::Untracked => self.untracked,
                crate::status::FileStatusType::Unmerged => self.accent,
            }),
    {
        match status {
            crate::status::FileStatusType::Modified => self.warning,
            crate::status::FileStatusType::Added => self.success,
            crate::status::FileStatusType::Deleted => self.error,
            crate::status::FileStatusType::Renamed => self.info,
            crate::status::FileStatusType::Copied => self.info,
            crate::status::FileStatusType::Untracked => self.untracked,
            crate::status::FileStatusType::Unmerged => self.accent,
        }
    }
}

impl Default for Theme {
    /// The default theme is the Catppuccin Mocha palette.
    fn default() -> (r: Theme)
        ensures
            r@ == spec_catppuccin(),
    {
        Theme::catppuccin()
    }
}

} // verus!
