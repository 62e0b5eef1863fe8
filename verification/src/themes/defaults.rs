use vstd::prelude::*;
use crate::themes::structs::{
    ButtonTokens, ComponentTokens, FileTheme, InputTokens, ListItemTokens, NewTheme, PanelTokens,
    SemanticTokens, SidebarItemTokens, Theme, ThemeDefault, ToolsViewTokens,
};

verus! {

/// The colors of `FileTheme::default_dark`.
pub open spec fn is_file_theme_default_dark(t: FileTheme) -> bool {
    &&& t.folder_default@ == "#FFFF00FF"@
    &&& t.image@ == "#64C8FFFF"@
    &&& t.pdf@ == "#FF5050FF"@
    &&& t.document@ == "#648CFFFF"@
    &&& t.video@ == "#C864FFFF"@
    &&& t.audio@ == "#FFC850FF"@
    &&& t.archive@ == "#FFA03CFF"@
    &&& t.code@ == "#64FF96FF"@
    &&& t.font@ == "#C8C8C8FF"@
    &&& t.executable@ == "#FF6464FF"@
    &&& t.fallback@ == "#FFFFFFFF"@
}

/// The colors of `FileTheme::default_light`.
pub open spec fn is_file_theme_default_light(t: FileTheme) -> bool {
    &&& t.folder_default@ == "#C49A45"@
    &&& t.image@ == "#0066CC"@
    &&& t.pdf@ == "#D32F2F"@
    &&& t.document@ == "#1A56DB"@
    &&& t.video@ == "#7B1FA2"@
    &&& t.audio@ == "#E65100"@
    &&& t.archive@ == "#A0522D"@
    &&& t.code@ == "#007F3E"@
    &&& t.font@ == "#4A4A4A"@
    &&& t.executable@ == "#C62828"@
    &&& t.fallback@ == "#2D2D2D"@
}

/// The colors of `FileTheme::blaze_light`.
pub open spec fn is_file_theme_blaze_light(t: FileTheme) -> bool {
    &&& t.folder_default@ == "#FFA3B6"@
    &&& t.image@ == "#4EA8DE"@
    &&& t.pdf@ == "#E63946"@
    &&& t.document@ == "#48CAE4"@
    &&& t.video@ == "#B5179E"@
    &&& t.audio@ == "#FFB703"@
    &&& t.archive@ == "#FB8500"@
    &&& t.code@ == "#2A9D8F"@
    &&& t.font@ == "#6D6875"@
    &&& t.executable@ == "#E63946"@
    &&& t.fallback@ == "#4A4E69"@
}

/// The colors of `NewTheme::blaze_dark` ("Blaze Dark").
pub open spec fn is_blaze_dark(t: NewTheme) -> bool {
    &&& t.name@ == "Blaze Dark"@
    &&& t.autor@ == "Jhanfer"@
    &&& t.version@ == "2.0.0"@
    &&& t.luminance_bits == 0x3F333333
    &&& t.semantic.bg_main@ == "#0D0614"@
    &&& t.semantic.bg_container@ == "#251731"@
    &&& t.semantic.separator@ == "#574069"@
    &&& t.semantic.accent@ == "#8C4BF7"@
    &&& t.semantic.accent_glow@ == "#BA6EFF"@
    &&& t.semantic.rubberband@ == "#8C4BF73E"@
    &&& t.semantic.text_primary@ == "#FFFFFF"@
    &&& t.semantic.text_secondary@ == "#E2D5ED"@
    &&& t.semantic.text_muted@ == "#7A6A85"@
    &&& t.semantic.error@ == "#C44D4D"@
    &&& t.semantic.success@ == "#73C44D"@
    &&& t.semantic.warn@ == "#C4BC4D"@
    &&& t.components.panel.bg@ == "#1B1124"@
    &&& t.components.panel.border@ == "#BA6EFF"@
    &&& t.components.input.bg@ == "#251731"@
    &&& t.components.input.border_idle@ == "#564663"@
    &&& t.components.input.border_focus@ == "#D3B7FF"@
    &&& t.components.button.bg@ == "#281E30"@
    &&& t.components.button.bg_hover@ == "#B175DF"@
    &&& t.components.button.label_hover@ == "#D9AEFF"@
    &&& t.components.button.label_active@ == "#B45FFF"@
    &&& t.components.button.label_inactive@ == "#858585"@
    &&& t.components.sidebar_item.bg_hover@ == "#372942"@
    &&& t.components.list_item.bg_hover@ == "#372942"@
    &&& t.components.list_item.bg_selected@ == "#75479C"@
    &&& t.components.tools.bg@ == "#2C1E38"@
    &&& t.components.tools.label_hover@ == "#EBDCFA"@
    &&& t.components.tools.label_active@ == "#9677B1"@
    &&& t.components.tools.label_inactive@ == "#646464"@
    &&& is_file_theme_default_dark(t.file_theme)
}

/// The colors of `NewTheme::blaze_light` ("Blaze Light").
pub open spec fn is_blaze_light(t: NewTheme) -> bool {
    &&& t.name@ == "Blaze Light"@
    &&& t.autor@ == "Jhanfer"@
    &&& t.version@ == "2.0.0"@
    &&& t.luminance_bits == 0x3E99999A
    &&& t.semantic.bg_main@ == "#FFF5F7"@
    &&& t.semantic.bg_container@ == "#FFE3E9"@
    &&& t.semantic.separator@ == "#FFD1DC"@
    &&& t.semantic.accent@ == "#FF6584"@
    &&& t.semantic.accent_glow@ == "#FF85A2"@
    &&& t.semantic.rubberband@ == "#FF658426"@
    &&& t.semantic.text_primary@ == "#3A1A22"@
    &&& t.semantic.text_secondary@ == "#704852"@
    &&& t.semantic.text_muted@ == "#A3858D"@
    &&& t.semantic.error@ == "#D32F2F"@
    &&& t.semantic.success@ == "#388E3C"@
    &&& t.semantic.warn@ == "#FBC02D"@
    &&& t.components.panel.bg@ == "#FFFFFF"@
    &&& t.components.panel.border@ == "#FFD1DC"@
    &&& t.components.input.bg@ == "#FFFFFF"@
    &&& t.components.input.border_idle@ == "#FFD1DC"@
    &&& t.components.input.border_focus@ == "#FF6584"@
    &&& t.components.button.bg@ == "#FFE9EE"@
    &&& t.components.button.bg_hover@ == "#FFC2D1"@
    &&& t.components.button.label_hover@ == "#3A1A22"@
    &&& t.components.button.label_active@ == "#FF6584"@
    &&& t.components.button.label_inactive@ == "#A3858D"@
    &&& t.components.sidebar_item.bg_hover@ == "#FFC2D1"@
    &&& t.components.list_item.bg_hover@ == "#FFC2D1"@
    &&& t.components.list_item.bg_selected@ == "#E4B4BD"@
    &&& t.components.tools.bg@ == "#FFFFFF"@
    &&& t.components.tools.label_hover@ == "#FF6584"@
    &&& t.components.tools.label_active@ == "#FF6584"@
    &&& t.components.tools.label_inactive@ == "#A3858D"@
    &&& is_file_theme_blaze_light(t.file_theme)
}

/// The colors of `NewTheme::blaze_vscode_dark` ("VS Code Dark").
pub open spec fn is_blaze_vscode_dark(t: NewTheme) -> bool {
    &&& t.name@ == "VS Code Dark"@
    &&& t.autor@ == "Jhanfer"@
    &&& t.version@ == "2.0.0"@
    &&& t.luminance_bits == 0x3F333333
    &&& t.semantic.bg_main@ == "#1E1E1E"@
    &&& t.semantic.bg_container@ == "#3C3C3C"@
    &&& t.semantic.separator@ == "#3C3C3C"@
    &&& t.semantic.accent@ == "#007ACC"@
    &&& t.semantic.accent_glow@ == "#1C97EA"@
    &&& t.semantic.rubberband@ == "#007ACC33"@
    &&& t.semantic.text_primary@ == "#CCCCCC"@
    &&& t.semantic.text_secondary@ == "#858585"@
    &&& t.semantic.text_muted@ == "#6A6A6A"@
    &&& t.semantic.error@ == "#C44D4D"@
    &&& t.semantic.success@ == "#73C44D"@
    &&& t.semantic.warn@ == "#C4BC4D"@
    &&& t.components.panel.bg@ == "#252526"@
    &&& t.components.panel.border@ == "#3C3C3C"@
    &&& t.components.input.bg@ == "#3C3C3C"@
    &&& t.components.input.border_idle@ == "#3C3C3C"@
    &&& t.components.input.border_focus@ == "#007ACC"@
    &&& t.components.button.bg@ == "#2D2D2D"@
    &&& t.components.button.bg_hover@ == "#2A2D2E"@
    &&& t.components.button.label_hover@ == "#FFFFFF"@
    &&& t.components.button.label_active@ == "#007ACC"@
    &&& t.components.button.label_inactive@ == "#858585"@
    &&& t.components.sidebar_item.bg_hover@ == "#2A2D2E"@
    &&& t.components.list_item.bg_hover@ == "#2A2D2E"@
    &&& t.components.list_item.bg_selected@ == "#5E5E69"@
    &&& t.components.tools.bg@ == "#252526"@
    &&& t.components.tools.label_hover@ == "#E5B567"@
    &&& t.components.tools.label_active@ == "#E5B567"@
    &&& t.components.tools.label_inactive@ == "#858585"@
    &&& is_file_theme_default_dark(t.file_theme)
}

/// The colors of `NewTheme::blaze_vscode_light` ("VS Code Light").
pub open spec fn is_blaze_vscode_light(t: NewTheme) -> bool {
    &&& t.name@ == "VS Code Light"@
    &&& t.autor@ == "Jhanfer"@
    &&& t.version@ == "2.0.0"@
    &&& t.luminance_bits == 0x3E99999A
    &&& t.semantic.bg_main@ == "#F3F3F3"@
    &&& t.semantic.bg_container@ == "#E4E4E4"@
    &&& t.semantic.separator@ == "#E4E4E4"@
    &&& t.semantic.accent@ == "#007ACC"@
    &&& t.semantic.accent_glow@ == "#0062A3"@
    &&& t.semantic.rubberband@ == "#007ACC26"@
    &&& t.semantic.text_primary@ == "#555555"@
    &&& t.semantic.text_secondary@ == "#636363"@
    &&& t.semantic.text_muted@ == "#969696"@
    &&& t.semantic.error@ == "#C44D4D"@
    &&& t.semantic.success@ == "#73C44D"@
    &&& t.semantic.warn@ == "#C4BC4D"@
    &&& t.components.panel.bg@ == "#FFFFFF"@
    &&& t.components.panel.border@ == "#E4E4E4"@
    &&& t.components.input.bg@ == "#FFFFFF"@
    &&& t.components.input.border_idle@ == "#535353"@
    &&& t.components.input.border_focus@ == "#007ACC"@
    &&& t.components.button.bg@ == "#F3F3F3"@
    &&& t.components.button.bg_hover@ == "#E4E6F1"@
    &&& t.components.button.label_hover@ == "#007ACC"@
    &&& t.components.button.label_active@ == "#007ACC"@
    &&& t.components.button.label_inactive@ == "#969696"@
    &&& t.components.sidebar_item.bg_hover@ == "#E4E6F1"@
    &&& t.components.list_item.bg_hover@ == "#E4E6F1"@
    &&& t.components.list_item.bg_selected@ == "#8D8D8D"@
    &&& t.components.tools.bg@ == "#FFFFFF"@
    &&& t.components.tools.label_hover@ == "#007ACC"@
    &&& t.components.tools.label_active@ == "#007ACC"@
    &&& t.components.tools.label_inactive@ == "#858585"@
    &&& is_file_theme_default_light(t.file_theme)
}

impl FileTheme {
    /// File-type colors of the `default_dark` palette.
    pub fn default_dark() -> (t: Self)
        ensures
            is_file_theme_default_dark(t),
    {
        Self {
            folder_default: "#FFFF00FF".to_owned(),
            image: "#64C8FFFF".to_owned(),
            pdf: "#FF5050FF".to_owned(),
            document: "#648CFFFF".to_owned(),
            video: "#C864FFFF".to_owned(),
            audio: "#FFC850FF".to_owned(),
            archive: "#FFA03CFF".to_owned(),
            code: "#64FF96FF".to_owned(),
            font: "#C8C8C8FF".to_owned(),
            executable: "#FF6464FF".to_owned(),
            fallback: "#FFFFFFFF".to_owned(),
        }
    }

    /// File-type colors of the `default_light` palette.
    pub fn default_light() -> (t: Self)
        ensures
            is_file_theme_default_light(t),
    {
        Self {
            folder_default: "#C49A45".to_owned(),
            image: "#0066CC".to_owned(),
            pdf: "#D32F2F".to_owned(),
            document: "#1A56DB".to_owned(),
            video: "#7B1FA2".to_owned(),
            audio: "#E65100".to_owned(),
            archive: "#A0522D".to_owned(),
            code: "#007F3E".to_owned(),
            font: "#4A4A4A".to_owned(),
            executable: "#C62828".to_owned(),
            fallback: "#2D2D2D".to_owned(),
        }
    }

    /// File-type colors of the `blaze_light` palette.
    pub fn blaze_light() -> (t: Self)
        ensures
            is_file_theme_blaze_light(t),
    {
        Self {
            folder_default: "#FFA3B6".to_owned(),
            image: "#4EA8DE".to_owned(),
            pdf: "#E63946".to_owned(),
            document: "#48CAE4".to_owned(),
            video: "#B5179E".to_owned(),
            audio: "#FFB703".to_owned(),
            archive: "#FB8500".to_owned(),
            code: "#2A9D8F".to_owned(),
            font: "#6D6875".to_owned(),
            executable: "#E63946".to_owned(),
            fallback: "#4A4E69".to_owned(),
        }
    }
}

impl NewTheme {
    /// The "Blaze Dark" theme (luminance 0.7).
    pub fn blaze_dark() -> (t: Self)
        ensures
            is_blaze_dark(t),
    {
        Self {
            name: "Blaze Dark".to_owned(),
            autor: "Jhanfer".to_owned(),
            version: "2.0.0".to_owned(),
            luminance_bits: 0x3F333333,
            semantic: SemanticTokens {
                bg_main: "#0D0614".to_owned(),
                bg_container: "#251731".to_owned(),
                separator: "#574069".to_owned(),
                accent: "#8C4BF7".to_owned(),
                accent_glow: "#BA6EFF".to_owned(),
                rubberband: "#8C4BF73E".to_owned(),
                text_primary: "#FFFFFF".to_owned(),
                text_secondary: "#E2D5ED".to_owned(),
                text_muted: "#7A6A85".to_owned(),
                error: "#C44D4D".to_owned(),
                success: "#73C44D".to_owned(),
                warn: "#C4BC4D".to_owned(),
            },
            components: ComponentTokens {
                panel: PanelTokens {
                    bg: "#1B1124".to_owned(),
                    border: "#BA6EFF".to_owned(),
                },
                input: InputTokens {
                    bg: "#251731".to_owned(),
                    border_idle: "#564663".to_owned(),
                    border_focus: "#D3B7FF".to_owned(),
                },
                button: ButtonTokens {
                    bg: "#281E30".to_owned(),
                    bg_hover: "#B175DF".to_owned(),
                    label_hover: "#D9AEFF".to_owned(),
                    label_active: "#B45FFF".to_owned(),
                    label_inactive: "#858585".to_owned(),
                },
                sidebar_item: SidebarItemTokens {
                    bg_hover: "#372942".to_owned(),
                },
                list_item: ListItemTokens {
                    bg_hover: "#372942".to_owned(),
                    bg_selected: "#75479C".to_owned(),
                },
                tools: ToolsViewTokens {
                    bg: "#2C1E38".to_owned(),
                    label_hover: "#EBDCFA".to_owned(),
                    label_active: "#9677B1".to_owned(),
                    label_inactive: "#646464".to_owned(),
                },
            },
            file_theme: FileTheme::default(),
        }
    }

    /// The "Blaze Light" theme (luminance 0.3).
    pub fn blaze_light() -> (t: Self)
        ensures
            is_blaze_light(t),
    {
        Self {
            name: "Blaze Light".to_owned(),
            autor: "Jhanfer".to_owned(),
            version: "2.0.0".to_owned(),
            luminance_bits: 0x3E99999A,
            semantic: SemanticTokens {
                bg_main: "#FFF5F7".to_owned(),
                bg_container: "#FFE3E9".to_owned(),
                separator: "#FFD1DC".to_owned(),
                accent: "#FF6584".to_owned(),
                accent_glow: "#FF85A2".to_owned(),
                rubberband: "#FF658426".to_owned(),
                text_primary: "#3A1A22".to_owned(),
                text_secondary: "#704852".to_owned(),
                text_muted: "#A3858D".to_owned(),
                error: "#D32F2F".to_owned(),
                success: "#388E3C".to_owned(),
                warn: "#FBC02D".to_owned(),
            },
            components: ComponentTokens {
                panel: PanelTokens {
                    bg: "#FFFFFF".to_owned(),
                    border: "#FFD1DC".to_owned(),
                },
                input: InputTokens {
                    bg: "#FFFFFF".to_owned(),
                    border_idle: "#FFD1DC".to_owned(),
                    border_focus: "#FF6584".to_owned(),
                },
                button: ButtonTokens {
                    bg: "#FFE9EE".to_owned(),
                    bg_hover: "#FFC2D1".to_owned(),
                    label_hover: "#3A1A22".to_owned(),
                    label_active: "#FF6584".to_owned(),
                    label_inactive: "#A3858D".to_owned(),
                },
                sidebar_item: SidebarItemTokens {
                    bg_hover: "#FFC2D1".to_owned(),
                },
                list_item: ListItemTokens {
                    bg_hover: "#FFC2D1".to_owned(),
                    bg_selected: "#E4B4BD".to_owned(),
                },
                tools: ToolsViewTokens {
                    bg: "#FFFFFF".to_owned(),
                    label_hover: "#FF6584".to_owned(),
                    label_active: "#FF6584".to_owned(),
                    label_inactive: "#A3858D".to_owned(),
                },
            },
            file_theme: FileTheme::blaze_light(),
        }
    }

    /// The "VS Code Dark" theme (luminance 0.7).
    pub fn blaze_vscode_dark() -> (t: Self)
        ensures
            is_blaze_vscode_dark(t),
    {
        Self {
            name: "VS Code Dark".to_owned(),
            autor: "Jhanfer".to_owned(),
            version: "2.0.0".to_owned(),
            luminance_bits: 0x3F333333,
            semantic: SemanticTokens {
                bg_main: "#1E1E1E".to_owned(),
                bg_container: "#3C3C3C".to_owned(),
                separator: "#3C3C3C".to_owned(),
                accent: "#007ACC".to_owned(),
                accent_glow: "#1C97EA".to_owned(),
                rubberband: "#007ACC33".to_owned(),
                text_primary: "#CCCCCC".to_owned(),
                text_secondary: "#858585".to_owned(),
                text_muted: "#6A6A6A".to_owned(),
                error: "#C44D4D".to_owned(),
                success: "#73C44D".to_owned(),
                warn: "#C4BC4D".to_owned(),
            },
            components: ComponentTokens {
                panel: PanelTokens {
                    bg: "#252526".to_owned(),
                    border: "#3C3C3C".to_owned(),
                },
                input: InputTokens {
                    bg: "#3C3C3C".to_owned(),
                    border_idle: "#3C3C3C".to_owned(),
                    border_focus: "#007ACC".to_owned(),
                },
                button: ButtonTokens {
                    bg: "#2D2D2D".to_owned(),
                    bg_hover: "#2A2D2E".to_owned(),
                    label_hover: "#FFFFFF".to_owned(),
                    label_active: "#007ACC".to_owned(),
                    label_inactive: "#858585".to_owned(),
                },
                sidebar_item: SidebarItemTokens {
                    bg_hover: "#2A2D2E".to_owned(),
                },
                list_item: ListItemTokens {
                    bg_hover: "#2A2D2E".to_owned(),
                    bg_selected: "#5E5E69".to_owned(),
                },
                tools: ToolsViewTokens {
                    bg: "#252526".to_owned(),
                    label_hover: "#E5B567".to_owned(),
                    label_active: "#E5B567".to_owned(),
                    label_inactive: "#858585".to_owned(),
                },
            },
            file_theme: FileTheme::default(),
        }
    }

    /// The "VS Code Light" theme (luminance 0.3).
    pub fn blaze_vscode_light() -> (t: Self)
        ensures
            is_blaze_vscode_light(t),
    {
        Self {
            name: "VS Code Light".to_owned(),
            autor: "Jhanfer".to_owned(),
            version: "2.0.0".to_owned(),
            luminance_bits: 0x3E99999A,
            semantic: SemanticTokens {
                bg_main: "#F3F3F3".to_owned(),
                bg_container: "#E4E4E4".to_owned(),
                separator: "#E4E4E4".to_owned(),
                accent: "#007ACC".to_owned(),
                accent_glow: "#0062A3".to_owned(),
                rubberband: "#007ACC26".to_owned(),
                text_primary: "#555555".to_owned(),
                text_secondary: "#636363".to_owned(),
                text_muted: "#969696".to_owned(),
                error: "#C44D4D".to_owned(),
                success: "#73C44D".to_owned(),
                warn: "#C4BC4D".to_owned(),
            },
            components: ComponentTokens {
                panel: PanelTokens {
                    bg: "#FFFFFF".to_owned(),
                    border: "#E4E4E4".to_owned(),
                },
                input: InputTokens {
                    bg: "#FFFFFF".to_owned(),
                    border_idle: "#535353".to_owned(),
                    border_focus: "#007ACC".to_owned(),
                },
                button: ButtonTokens {
                    bg: "#F3F3F3".to_owned(),
                    bg_hover: "#E4E6F1".to_owned(),
                    label_hover: "#007ACC".to_owned(),
                    label_active: "#007ACC".to_owned(),
                    label_inactive: "#969696".to_owned(),
                },
                sidebar_item: SidebarItemTokens {
                    bg_hover: "#E4E6F1".to_owned(),
                },
                list_item: ListItemTokens {
                    bg_hover: "#E4E6F1".to_owned(),
                    bg_selected: "#8D8D8D".to_owned(),
                },
                tools: ToolsViewTokens {
                    bg: "#FFFFFF".to_owned(),
                    label_hover: "#007ACC".to_owned(),
                    label_active: "#007ACC".to_owned(),
                    label_inactive: "#858585".to_owned(),
                },
            },
            file_theme: FileTheme::default_light(),
        }
    }
}

impl ThemeDefault for NewTheme {
    fn default_dark() -> (t: Self)
        ensures
            is_blaze_dark(t),
    {
        Self::blaze_dark()
    }

    fn default_light() -> (t: Self)
        ensures
            is_blaze_light(t),
    {
        Self::blaze_light()
    }

    fn default_vscode_dark() -> (t: Self)
        ensures
            is_blaze_vscode_dark(t),
    {
        Self::blaze_vscode_dark()
    }

    fn default_vscode_light() -> (t: Self)
        ensures
            is_blaze_vscode_light(t),
    {
        Self::blaze_vscode_light()
    }
}

impl Default for FileTheme {
    /// The file-type colors used when a theme names none: the dark palette.
    fn default() -> (t: Self)
        ensures
            is_file_theme_default_dark(t),
    {
        Self::default_dark()
    }
}

/// How a theme of the first format reads in the current one: the panel
/// border becomes the separator and the input's idle border, the hover
/// color is shared by buttons, sidebar and list items, the tool button
/// colors become the button and tools labels, the version becomes "2.0.0".
pub open spec fn migrated(old: Theme, new: NewTheme) -> bool {
    &&& new.name == old.name
    &&& new.autor == old.autor
    &&& new.version@ == "2.0.0"@
    &&& new.luminance_bits == old.luminance_bits
    &&& new.semantic.bg_main == old.bg_main
    &&& new.semantic.bg_container == old.bg_container
    &&& new.semantic.separator == old.border_panel
    &&& new.semantic.accent == old.accent
    &&& new.semantic.accent_glow == old.accent_glow
    &&& new.semantic.rubberband == old.rubberband
    &&& new.semantic.text_primary == old.text_primary
    &&& new.semantic.text_secondary == old.text_secondary
    &&& new.semantic.text_muted == old.text_muted
    &&& new.semantic.error == old.error
    &&& new.semantic.success == old.success
    &&& new.semantic.warn == old.warn
    &&& new.components.panel.bg == old.bg_panel
    &&& new.components.panel.border == old.border_panel
    &&& new.components.input.bg == old.bg_container
    &&& new.components.input.border_idle == old.border_panel
    &&& new.components.input.border_focus == old.accent
    &&& new.components.button.bg == old.main_buttons
    &&& new.components.button.bg_hover == old.bg_hover
    &&& new.components.button.label_hover == old.tool_btn_hovered
    &&& new.components.button.label_active == old.tool_btn_active
    &&& new.components.button.label_inactive == old.tool_btn_inactive
    &&& new.components.sidebar_item.bg_hover == old.bg_hover
    &&& new.components.list_item.bg_hover == old.bg_hover
    &&& new.components.list_item.bg_selected == old.item_selected
    &&& new.components.tools.bg == old.bg_panel
    &&& new.components.tools.label_hover == old.tool_btn_hovered
    &&& new.components.tools.label_active == old.tool_btn_active
    &&& new.components.tools.label_inactive == old.tool_btn_inactive
    &&& new.file_theme == old.file_theme
}

impl Theme {
    /// Turns a theme of the first format into one of the current format.
    pub fn migrate_to_new(self) -> (t: NewTheme)
        ensures
            migrated(self, t),
    {
        NewTheme {
            name: self.name,
            autor: self.autor,
            version: "2.0.0".to_owned(),
            luminance_bits: self.luminance_bits,
            semantic: SemanticTokens {
                bg_main: self.bg_main,
                bg_container: self.bg_container.clone(),
                separator: self.border_panel.clone(),
                accent: self.accent.clone(),
                accent_glow: self.accent_glow,
                rubberband: self.rubberband.clone(),
                text_primary: self.text_primary.clone(),
                text_secondary: self.text_secondary.clone(),
                text_muted: self.text_muted.clone(),
                error: self.error,
                success: self.success,
                warn: self.warn,
            },
            components: ComponentTokens {
                panel: PanelTokens { bg: self.bg_panel.clone(), border: self.border_panel.clone() },
                input: InputTokens {
                    bg: self.bg_container,
                    border_idle: self.border_panel,
                    border_focus: self.accent,
                },
                button: ButtonTokens {
                    bg: self.main_buttons,
                    bg_hover: self.bg_hover.clone(),
                    label_hover: self.tool_btn_hovered.clone(),
                    label_active: self.tool_btn_active.clone(),
                    label_inactive: self.tool_btn_inactive.clone(),
                },
                sidebar_item: SidebarItemTokens { bg_hover: self.bg_hover.clone() },
                list_item: ListItemTokens { bg_hover: self.bg_hover, bg_selected: self.item_selected },
                tools: ToolsViewTokens {
                    bg: self.bg_panel,
                    label_hover: self.tool_btn_hovered,
                    label_active: self.tool_btn_active,
                    label_inactive: self.tool_btn_inactive,
                },
            },
            file_theme: self.file_theme,
        }
    }
}

} // verus!
