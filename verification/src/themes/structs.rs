use vstd::prelude::*;

verus! {

/// Colors of the file icons, one hex color string per kind of file.
#[derive(Clone, Debug)]
pub struct FileTheme {
    pub folder_default: String,
    pub image: String,
    pub pdf: String,
    pub document: String,
    pub video: String,
    pub audio: String,
    pub archive: String,
    pub code: String,
    pub font: String,
    pub executable: String,
    pub fallback: String,
}

/// Colors shared by the whole interface.
#[derive(Clone, Debug)]
pub struct SemanticTokens {
    pub bg_main: String,
    pub bg_container: String,
    pub separator: String,
    pub accent: String,
    pub accent_glow: String,
    pub rubberband: String,
    pub text_primary: String,
    pub text_secondary: String,
    pub text_muted: String,
    pub error: String,
    pub success: String,
    pub warn: String,
}

/// Colors of each kind of component.
#[derive(Clone, Debug)]
pub struct ComponentTokens {
    pub panel: PanelTokens,
    pub input: InputTokens,
    pub button: ButtonTokens,
    pub sidebar_item: SidebarItemTokens,
    pub list_item: ListItemTokens,
    pub tools: ToolsViewTokens,
}

#[derive(Clone, Debug)]
pub struct PanelTokens {
    pub bg: String,
    pub border: String,
}

#[derive(Clone, Debug)]
pub struct InputTokens {
    pub bg: String,
    pub border_idle: String,
    pub border_focus: String,
}

#[derive(Clone, Debug)]
pub struct ButtonTokens {
    pub bg: String,
    pub bg_hover: String,
    pub label_hover: String,
    pub label_active: String,
    pub label_inactive: String,
}

#[derive(Clone, Debug)]
pub struct SidebarItemTokens {
    pub bg_hover: String,
}

#[derive(Clone, Debug)]
pub struct ListItemTokens {
    pub bg_hover: String,
    pub bg_selected: String,
}

#[derive(Clone, Debug)]
pub struct ToolsViewTokens {
    pub bg: String,
    pub label_hover: String,
    pub label_active: String,
    pub label_inactive: String,
}

/// A theme of the current (token based) format.
///
/// `luminance_bits` holds the IEEE-754 single precision encoding of the
/// minimum lightness that icons and names are raised to; the library only
/// carries it, the interface reads it as a float.
#[derive(Clone, Debug)]
pub struct NewTheme {
    pub name: String,
    pub autor: String,
    pub version: String,
    pub luminance_bits: u32,
    pub semantic: SemanticTokens,
    pub components: ComponentTokens,
    pub file_theme: FileTheme,
}

/// A theme of the first, flat format, still found in older theme files.
/// It is read once and turned into a `NewTheme` by `migrate_to_new`.
#[derive(Clone, Debug)]
pub struct Theme {
    pub name: String,
    pub autor: String,
    pub version: String,
    pub luminance_bits: u32,
    pub error: String,
    pub success: String,
    pub warn: String,
    pub bg_main: String,
    pub bg_panel: String,
    pub bg_container: String,
    pub border_panel: String,
    pub main_buttons: String,
    pub bg_hover: String,
    pub accent: String,
    pub accent_glow: String,
    pub rubberband: String,
    pub item_selected: String,
    pub text_primary: String,
    pub text_secondary: String,
    pub text_muted: String,
    pub tools_primary: String,
    pub tools_secondary: String,
    pub tool_btn_active: String,
    pub tool_btn_inactive: String,
    pub tool_btn_hovered: String,
    pub file_theme: FileTheme,
}

/// The four built-in themes.
pub trait ThemeDefault: Sized {
    fn default_dark() -> Self;

    fn default_light() -> Self;

    fn default_vscode_dark() -> Self;

    fn default_vscode_light() -> Self;
}

impl FileTheme {
    /// A copy equal to this value.
    pub fn duplicate(&self) -> (r: Self)
        ensures
            r == *self,
    {
        FileTheme {
            folder_default: self.folder_default.clone(),
            image: self.image.clone(),
            pdf: self.pdf.clone(),
            document: self.document.clone(),
            video: self.video.clone(),
            audio: self.audio.clone(),
            archive: self.archive.clone(),
            code: self.code.clone(),
            font: self.font.clone(),
            executable: self.executable.clone(),
            fallback: self.fallback.clone(),
        }
    }
}

impl SemanticTokens {
    /// A copy equal to this value.
    pub fn duplicate(&self) -> (r: Self)
        ensures
            r == *self,
    {
        SemanticTokens {
            bg_main: self.bg_main.clone(),
            bg_container: self.bg_container.clone(),
            separator: self.separator.clone(),
            accent: self.accent.clone(),
            accent_glow: self.accent_glow.clone(),
            rubberband: self.rubberband.clone(),
            text_primary: self.text_primary.clone(),
            text_secondary: self.text_secondary.clone(),
            text_muted: self.text_muted.clone(),
            error: self.error.clone(),
            success: self.success.clone(),
            warn: self.warn.clone(),
        }
    }
}

impl PanelTokens {
    /// A copy equal to this value.
    pub fn duplicate(&self) -> (r: Self)
        ensures
            r == *self,
    {
        PanelTokens {
            bg: self.bg.clone(),
            border: self.border.clone(),
        }
    }
}

impl InputTokens {
    /// A copy equal to this value.
    pub fn duplicate(&self) -> (r: Self)
        ensures
            r == *self,
    {
        InputTokens {
            bg: self.bg.clone(),
            border_idle: self.border_idle.clone(),
            border_focus: self.border_focus.clone(),
        }
    }
}

impl ButtonTokens {
    /// A copy equal to this value.
    pub fn duplicate(&self) -> (r: Self)
        ensures
            r == *self,
    {
        ButtonTokens {
            bg: self.bg.clone(),
            bg_hover: self.bg_hover.clone(),
            label_hover: self.label_hover.clone(),
            label_active: self.label_active.clone(),
            label_inactive: self.label_inactive.clone(),
        }
    }
}

impl SidebarItemTokens {
    /// A copy equal to this value.
    pub fn duplicate(&self) -> (r: Self)
        ensures
            r == *self,
    {
        SidebarItemTokens {
            bg_hover: self.bg_hover.clone(),
        }
    }
}

impl ListItemTokens {
    /// A copy equal to this value.
    pub fn duplicate(&self) -> (r: Self)
        ensures
            r == *self,
    {
        ListItemTokens {
            bg_hover: self.bg_hover.clone(),
            bg_selected: self.bg_selected.clone(),
        }
    }
}

impl ToolsViewTokens {
    /// A copy equal to this value.
    pub fn duplicate(&self) -> (r: Self)
        ensures
            r == *self,
    {
        ToolsViewTokens {
            bg: self.bg.clone(),
            label_hover: self.label_hover.clone(),
            label_active: self.label_active.clone(),
            label_inactive: self.label_inactive.clone(),
        }
    }
}

impl ComponentTokens {
    /// A copy equal to this value.
    pub fn duplicate(&self) -> (r: Self)
        ensures
            r == *self,
    {
        ComponentTokens {
            panel: self.panel.duplicate(),
            input: self.input.duplicate(),
            button: self.button.duplicate(),
            sidebar_item: self.sidebar_item.duplicate(),
            list_item: self.list_item.duplicate(),
            tools: self.tools.duplicate(),
        }
    }
}

impl NewTheme {
    /// A copy equal to this value.
    pub fn duplicate(&self) -> (r: Self)
        ensures
            r == *self,
    {
        NewTheme {
            name: self.name.clone(),
            autor: self.autor.clone(),
            version: self.version.clone(),
            luminance_bits: self.luminance_bits,
            semantic: self.semantic.duplicate(),
            components: self.components.duplicate(),
            file_theme: self.file_theme.duplicate(),
        }
    }
}

} // verus!
