//! The theme file: highlight groups with their colors, attributes and
//! links, and the border shape of each kind of surface. Unknown or
//! ill-typed entries are skipped with a warning.
use vstd::prelude::*;

use crate::id_map::IdMap;
use crate::text::{concat2, concat3, str_eq};
use crate::toml_doc::{parse_toml_document, tbool, toml_table_of, tstr, TomlValue};

verus! {

/// How many highlight groups there are.
pub const HIGHLIGHT_GROUP_COUNT: u8 = 116;

/// A named style slot of the interface, by its place in the list of groups.
#[derive(Clone, Copy, Debug, PartialEq, Eq, Structural)]
pub struct HighlightGroup {
    pub index: u8,
}

/// The name of each highlight group, in order.
pub open spec fn highlight_name_spec(i: int) -> Seq<char> {
    if i == 0 {
        "Normal"@
    } else if i == 1 {
        "Strong"@
    } else if i == 2 {
        "Emphasis"@
    } else if i == 3 {
        "Muted"@
    } else if i == 4 {
        "Title"@
    } else if i == 5 {
        "Heading"@
    } else if i == 6 {
        "Decoration"@
    } else if i == 7 {
        "Hint"@
    } else if i == 8 {
        "Description"@
    } else if i == 9 {
        "Shortcut"@
    } else if i == 10 {
        "Activity"@
    } else if i == 11 {
        "ChannelTypeMarker"@
    } else if i == 12 {
        "FieldLabel"@
    } else if i == 13 {
        "SearchContext"@
    } else if i == 14 {
        "Timestamp"@
    } else if i == 15 {
        "Placeholder"@
    } else if i == 16 {
        "Disabled"@
    } else if i == 17 {
        "Loading"@
    } else if i == 18 {
        "Edited"@
    } else if i == 19 {
        "Unavailable"@
    } else if i == 20 {
        "LoginTitle"@
    } else if i == 21 {
        "LoginHint"@
    } else if i == 22 {
        "PaneTitle"@
    } else if i == 23 {
        "ModalTitle"@
    } else if i == 24 {
        "ComposerTitle"@
    } else if i == 25 {
        "HeaderTitle"@
    } else if i == 26 {
        "HeaderLabel"@
    } else if i == 27 {
        "MessageAuthor"@
    } else if i == 28 {
        "MessageTimestamp"@
    } else if i == 29 {
        "CategoryHeading"@
    } else if i == 30 {
        "MemberGroupHeading"@
    } else if i == 31 {
        "MessageSecondary"@
    } else if i == 32 {
        "ForumSecondary"@
    } else if i == 33 {
        "EmbedAuthor"@
    } else if i == 34 {
        "EmbedTitle"@
    } else if i == 35 {
        "EmbedFieldName"@
    } else if i == 36 {
        "EmbedFooter"@
    } else if i == 37 {
        "CodeBlockBorder"@
    } else if i == 38 {
        "ScrollbarTrack"@
    } else if i == 39 {
        "UnavailableEmoji"@
    } else if i == 40 {
        "HeaderError"@
    } else if i == 41 {
        "HeaderWarning"@
    } else if i == 42 {
        "Border"@
    } else if i == 43 {
        "FocusBorder"@
    } else if i == 44 {
        "Selection"@
    } else if i == 45 {
        "SelectionBorder"@
    } else if i == 46 {
        "PaneBorder"@
    } else if i == 47 {
        "FocusedPaneBorder"@
    } else if i == 48 {
        "LoginBorder"@
    } else if i == 49 {
        "ComposerBorder"@
    } else if i == 50 {
        "ActiveComposerBorder"@
    } else if i == 51 {
        "ModalBorder"@
    } else if i == 52 {
        "ComposerPickerBorder"@
    } else if i == 53 {
        "SelectedRow"@
    } else if i == 54 {
        "SelectionMarker"@
    } else if i == 55 {
        "ActiveField"@
    } else if i == 56 {
        "ActiveTab"@
    } else if i == 57 {
        "MessageSelectedBorder"@
    } else if i == 58 {
        "ForumBorder"@
    } else if i == 59 {
        "ForumSelectedBorder"@
    } else if i == 60 {
        "ScrollbarThumb"@
    } else if i == 61 {
        "UnreadNotice"@
    } else if i == 62 {
        "Editing"@
    } else if i == 63 {
        "Reaction"@
    } else if i == 64 {
        "SelfReaction"@
    } else if i == 65 {
        "PresenceOnline"@
    } else if i == 66 {
        "PresenceIdle"@
    } else if i == 67 {
        "PresenceDnd"@
    } else if i == 68 {
        "PresenceOffline"@
    } else if i == 69 {
        "VoiceDisabled"@
    } else if i == 70 {
        "VoiceConnection"@
    } else if i == 71 {
        "FolderFallback"@
    } else if i == 72 {
        "NavigationActive"@
    } else if i == 73 {
        "NavigationMentioned"@
    } else if i == 74 {
        "NavigationNotified"@
    } else if i == 75 {
        "NavigationUnread"@
    } else if i == 76 {
        "MentionBadge"@
    } else if i == 77 {
        "NotificationBadge"@
    } else if i == 78 {
        "JoinedVoiceChannel"@
    } else if i == 79 {
        "VoiceSpeaking"@
    } else if i == 80 {
        "ReplyPingEnabled"@
    } else if i == 81 {
        "Tag"@
    } else if i == 82 {
        "RelationshipFriend"@
    } else if i == 83 {
        "RelationshipIncoming"@
    } else if i == 84 {
        "RelationshipOutgoing"@
    } else if i == 85 {
        "RelationshipBlocked"@
    } else if i == 86 {
        "RelationshipNone"@
    } else if i == 87 {
        "GaugeFill"@
    } else if i == 88 {
        "MessageBody"@
    } else if i == 89 {
        "MarkdownHeading1"@
    } else if i == 90 {
        "MarkdownHeading2"@
    } else if i == 91 {
        "MarkdownHeading3"@
    } else if i == 92 {
        "MarkdownQuote"@
    } else if i == 93 {
        "MarkdownMarker"@
    } else if i == 94 {
        "MessageAttachment"@
    } else if i == 95 {
        "ImageOverflow"@
    } else if i == 96 {
        "InlineCode"@
    } else if i == 97 {
        "MessageLink"@
    } else if i == 98 {
        "MentionSelf"@
    } else if i == 99 {
        "MentionOther"@
    } else if i == 100 {
        "MentionRole"@
    } else if i == 101 {
        "MentionPickerRole"@
    } else if i == 102 {
        "EmbedGutter"@
    } else if i == 103 {
        "EmbedLink"@
    } else if i == 104 {
        "CommandName"@
    } else if i == 105 {
        "SystemThreadName"@
    } else if i == 106 {
        "PollAnswerSelected"@
    } else if i == 107 {
        "PollWinner"@
    } else if i == 108 {
        "UnreadBanner"@
    } else if i == 109 {
        "UnreadDivider"@
    } else if i == 110 {
        "ForumPinnedBadge"@
    } else if i == 111 {
        "BotBadge"@
    } else if i == 112 {
        "Error"@
    } else if i == 113 {
        "Warning"@
    } else if i == 114 {
        "Success"@
    } else if i == 115 {
        "Info"@
    } else {
        Seq::empty()
    }
}

impl HighlightGroup {
    /// The group's name.
    pub fn name(self) -> (r: &'static str)
        requires
            self.index < HIGHLIGHT_GROUP_COUNT,
        ensures
            r@ == highlight_name_spec(self.index as int),
    {
        match self.index {
            0 => "Normal",
            1 => "Strong",
            2 => "Emphasis",
            3 => "Muted",
            4 => "Title",
            5 => "Heading",
            6 => "Decoration",
            7 => "Hint",
            8 => "Description",
            9 => "Shortcut",
            10 => "Activity",
            11 => "ChannelTypeMarker",
            12 => "FieldLabel",
            13 => "SearchContext",
            14 => "Timestamp",
            15 => "Placeholder",
            16 => "Disabled",
            17 => "Loading",
            18 => "Edited",
            19 => "Unavailable",
            20 => "LoginTitle",
            21 => "LoginHint",
            22 => "PaneTitle",
            23 => "ModalTitle",
            24 => "ComposerTitle",
            25 => "HeaderTitle",
            26 => "HeaderLabel",
            27 => "MessageAuthor",
            28 => "MessageTimestamp",
            29 => "CategoryHeading",
            30 => "MemberGroupHeading",
            31 => "MessageSecondary",
            32 => "ForumSecondary",
            33 => "EmbedAuthor",
            34 => "EmbedTitle",
            35 => "EmbedFieldName",
            36 => "EmbedFooter",
            37 => "CodeBlockBorder",
            38 => "ScrollbarTrack",
            39 => "UnavailableEmoji",
            40 => "HeaderError",
            41 => "HeaderWarning",
            42 => "Border",
            43 => "FocusBorder",
            44 => "Selection",
            45 => "SelectionBorder",
            46 => "PaneBorder",
            47 => "FocusedPaneBorder",
            48 => "LoginBorder",
            49 => "ComposerBorder",
            50 => "ActiveComposerBorder",
            51 => "ModalBorder",
            52 => "ComposerPickerBorder",
            53 => "SelectedRow",
            54 => "SelectionMarker",
            55 => "ActiveField",
            56 => "ActiveTab",
            57 => "MessageSelectedBorder",
            58 => "ForumBorder",
            59 => "ForumSelectedBorder",
            60 => "ScrollbarThumb",
            61 => "UnreadNotice",
            62 => "Editing",
            63 => "Reaction",
            64 => "SelfReaction",
            65 => "PresenceOnline",
            66 => "PresenceIdle",
            67 => "PresenceDnd",
            68 => "PresenceOffline",
            69 => "VoiceDisabled",
            70 => "VoiceConnection",
            71 => "FolderFallback",
            72 => "NavigationActive",
            73 => "NavigationMentioned",
            74 => "NavigationNotified",
            75 => "NavigationUnread",
            76 => "MentionBadge",
            77 => "NotificationBadge",
            78 => "JoinedVoiceChannel",
            79 => "VoiceSpeaking",
            80 => "ReplyPingEnabled",
            81 => "Tag",
            82 => "RelationshipFriend",
            83 => "RelationshipIncoming",
            84 => "RelationshipOutgoing",
            85 => "RelationshipBlocked",
            86 => "RelationshipNone",
            87 => "GaugeFill",
            88 => "MessageBody",
            89 => "MarkdownHeading1",
            90 => "MarkdownHeading2",
            91 => "MarkdownHeading3",
            92 => "MarkdownQuote",
            93 => "MarkdownMarker",
            94 => "MessageAttachment",
            95 => "ImageOverflow",
            96 => "InlineCode",
            97 => "MessageLink",
            98 => "MentionSelf",
            99 => "MentionOther",
            100 => "MentionRole",
            101 => "MentionPickerRole",
            102 => "EmbedGutter",
            103 => "EmbedLink",
            104 => "CommandName",
            105 => "SystemThreadName",
            106 => "PollAnswerSelected",
            107 => "PollWinner",
            108 => "UnreadBanner",
            109 => "UnreadDivider",
            110 => "ForumPinnedBadge",
            111 => "BotBadge",
            112 => "Error",
            113 => "Warning",
            114 => "Success",
            115 => "Info",
            _ => "Info",
        }
    }

    /// The group with this name: the first in the list that has it.
    pub fn from_name(name: &str) -> (r: Option<HighlightGroup>)
        ensures
            match r {
                Some(g) => g.index < HIGHLIGHT_GROUP_COUNT && highlight_name_spec(g.index as int) == name@
                    && forall|j: int| 0 <= j < g.index ==> highlight_name_spec(j) != name@,
                None => forall|j: int| 0 <= j < HIGHLIGHT_GROUP_COUNT ==> highlight_name_spec(j) != name@,
            },
    {
        let mut i: u8 = 0;
        while i < HIGHLIGHT_GROUP_COUNT
            invariant
                i <= HIGHLIGHT_GROUP_COUNT,
                forall|j: int| 0 <= j < i ==> highlight_name_spec(j) != name@,
            decreases HIGHLIGHT_GROUP_COUNT - i,
        {
            let g = HighlightGroup { index: i };
            if str_eq(g.name(), name) {
                return Some(g);
            }
            i = i + 1;
        }
        None
    }
}

/// A kind of bordered surface.
#[derive(Clone, Copy, Debug, PartialEq, Eq, Structural)]
pub enum BorderSurface {
    Pane,
    Composer,
    Modal,
    Picker,
    Login,
    Message,
    Forum,
}

/// How many kinds of surface there are.
pub const BORDER_SURFACE_COUNT: usize = 7;

pub open spec fn surface_index_spec(s: BorderSurface) -> int {
    match s {
        BorderSurface::Pane => 0,
        BorderSurface::Composer => 1,
        BorderSurface::Modal => 2,
        BorderSurface::Picker => 3,
        BorderSurface::Login => 4,
        BorderSurface::Message => 5,
        BorderSurface::Forum => 6,
    }
}

pub open spec fn surface_from_name_spec(name: Seq<char>) -> Option<BorderSurface> {
    if name == "pane"@ {
        Some(BorderSurface::Pane)
    } else if name == "composer"@ {
        Some(BorderSurface::Composer)
    } else if name == "modal"@ {
        Some(BorderSurface::Modal)
    } else if name == "picker"@ {
        Some(BorderSurface::Picker)
    } else if name == "login"@ {
        Some(BorderSurface::Login)
    } else if name == "message"@ {
        Some(BorderSurface::Message)
    } else if name == "forum"@ {
        Some(BorderSurface::Forum)
    } else {
        None
    }
}

impl BorderSurface {
    pub fn index(self) -> (r: usize)
        ensures
            r == surface_index_spec(self),
            r < BORDER_SURFACE_COUNT,
    {
        match self {
            BorderSurface::Pane => 0,
            BorderSurface::Composer => 1,
            BorderSurface::Modal => 2,
            BorderSurface::Picker => 3,
            BorderSurface::Login => 4,
            BorderSurface::Message => 5,
            BorderSurface::Forum => 6,
        }
    }

    pub fn from_name(name: &str) -> (r: Option<BorderSurface>)
        ensures
            r == surface_from_name_spec(name@),
    {
        if str_eq(name, "pane") {
            Some(BorderSurface::Pane)
        } else if str_eq(name, "composer") {
            Some(BorderSurface::Composer)
        } else if str_eq(name, "modal") {
            Some(BorderSurface::Modal)
        } else if str_eq(name, "picker") {
            Some(BorderSurface::Picker)
        } else if str_eq(name, "login") {
            Some(BorderSurface::Login)
        } else if str_eq(name, "message") {
            Some(BorderSurface::Message)
        } else if str_eq(name, "forum") {
            Some(BorderSurface::Forum)
        } else {
            None
        }
    }

    /// Whether the surface has rounded corners when the theme says nothing.
    pub fn rounded_by_default(self) -> (r: bool)
        ensures
            r == (self == BorderSurface::Composer || self == BorderSurface::Message || self == BorderSurface::Forum),
    {
        match self {
            BorderSurface::Pane => false,
            BorderSurface::Composer => true,
            BorderSurface::Modal => false,
            BorderSurface::Picker => false,
            BorderSurface::Login => false,
            BorderSurface::Message => true,
            BorderSurface::Forum => true,
        }
    }
}

/// A box-drawing style for borders.
#[derive(Clone, Copy, Debug, PartialEq, Eq, Structural)]
pub enum BorderShape {
    Plain,
    Rounded,
    Double,
    Thick,
    LightDoubleDashed,
    HeavyDoubleDashed,
    LightTripleDashed,
    HeavyTripleDashed,
    LightQuadrupleDashed,
    HeavyQuadrupleDashed,
    QuadrantInside,
    QuadrantOutside,
}

pub open spec fn shape_from_name_spec(name: Seq<char>) -> Option<BorderShape> {
    if name == "plain"@ {
        Some(BorderShape::Plain)
    } else if name == "rounded"@ {
        Some(BorderShape::Rounded)
    } else if name == "double"@ {
        Some(BorderShape::Double)
    } else if name == "thick"@ {
        Some(BorderShape::Thick)
    } else if name == "light_double_dashed"@ {
        Some(BorderShape::LightDoubleDashed)
    } else if name == "heavy_double_dashed"@ {
        Some(BorderShape::HeavyDoubleDashed)
    } else if name == "light_triple_dashed"@ {
        Some(BorderShape::LightTripleDashed)
    } else if name == "heavy_triple_dashed"@ {
        Some(BorderShape::HeavyTripleDashed)
    } else if name == "light_quadruple_dashed"@ {
        Some(BorderShape::LightQuadrupleDashed)
    } else if name == "heavy_quadruple_dashed"@ {
        Some(BorderShape::HeavyQuadrupleDashed)
    } else if name == "quadrant_inside"@ {
        Some(BorderShape::QuadrantInside)
    } else if name == "quadrant_outside"@ {
        Some(BorderShape::QuadrantOutside)
    } else {
        None
    }
}

impl BorderShape {
    pub fn from_name(name: &str) -> (r: Option<BorderShape>)
        ensures
            r == shape_from_name_spec(name@),
    {
        if str_eq(name, "plain") {
            Some(BorderShape::Plain)
        } else if str_eq(name, "rounded") {
            Some(BorderShape::Rounded)
        } else if str_eq(name, "double") {
            Some(BorderShape::Double)
        } else if str_eq(name, "thick") {
            Some(BorderShape::Thick)
        } else if str_eq(name, "light_double_dashed") {
            Some(BorderShape::LightDoubleDashed)
        } else if str_eq(name, "heavy_double_dashed") {
            Some(BorderShape::HeavyDoubleDashed)
        } else if str_eq(name, "light_triple_dashed") {
            Some(BorderShape::LightTripleDashed)
        } else if str_eq(name, "heavy_triple_dashed") {
            Some(BorderShape::HeavyTripleDashed)
        } else if str_eq(name, "light_quadruple_dashed") {
            Some(BorderShape::LightQuadrupleDashed)
        } else if str_eq(name, "heavy_quadruple_dashed") {
            Some(BorderShape::HeavyQuadrupleDashed)
        } else if str_eq(name, "quadrant_inside") {
            Some(BorderShape::QuadrantInside)
        } else if str_eq(name, "quadrant_outside") {
            Some(BorderShape::QuadrantOutside)
        } else {
            None
        }
    }
}

/// The group a name stands for: the first group with that name.
pub open spec fn group_from_name_spec(name: Seq<char>) -> Option<HighlightGroup> {
    if exists|j: int| 0 <= j < HIGHLIGHT_GROUP_COUNT && highlight_name_spec(j) == name {
        let j = choose|j: int|
            0 <= j < HIGHLIGHT_GROUP_COUNT && highlight_name_spec(j) == name && forall|k: int|
                0 <= k < j ==> highlight_name_spec(k) != name;
        Some(HighlightGroup { index: j as u8 })
    } else {
        None
    }
}

/// `from_name` finds exactly the group `group_from_name_spec` names.
proof fn lemma_from_name_matches(name: Seq<char>, r: Option<HighlightGroup>)
    requires
        match r {
            Some(g) => g.index < HIGHLIGHT_GROUP_COUNT && highlight_name_spec(g.index as int) == name && forall|j: int|
                0 <= j < g.index ==> highlight_name_spec(j) != name,
            None => forall|j: int| 0 <= j < HIGHLIGHT_GROUP_COUNT ==> highlight_name_spec(j) != name,
        },
    ensures
        r == group_from_name_spec(name),
{
    if let Some(g) = r {
        let i = g.index as int;
        assert(0 <= i < HIGHLIGHT_GROUP_COUNT && highlight_name_spec(i) == name && forall|k: int|
            0 <= k < i ==> highlight_name_spec(k) != name);
        let j = choose|j: int|
            0 <= j < HIGHLIGHT_GROUP_COUNT && highlight_name_spec(j) == name && forall|k: int|
                0 <= k < j ==> highlight_name_spec(k) != name;
        if j < i {
            assert(highlight_name_spec(j) != name);
        } else if i < j {
            assert(highlight_name_spec(i) != name);
        }
    }
}

/// A highlight group either inherits another group's style or stands alone.
#[derive(Clone, Copy, Debug, PartialEq, Eq, Structural)]
pub enum HighlightLinkOptions {
    Inherit(HighlightGroup),
    Detached,
}

/// What the theme sets for one highlight group; unset parts fall back.
#[derive(Clone, Debug)]
pub struct HighlightDefinitionOptions {
    pub link: Option<HighlightLinkOptions>,
    pub foreground: Option<String>,
    pub background: Option<String>,
    pub bold: Option<bool>,
    pub italic: Option<bool>,
    pub dim: Option<bool>,
    pub underline: Option<bool>,
    pub strikethrough: Option<bool>,
}

/// The border shape for all surfaces, and for each kind of surface.
#[derive(Clone, Copy, Debug)]
pub struct BorderShapeOptions {
    pub default: Option<BorderShape>,
    pub surfaces: [Option<BorderShape>; 7],
}

impl BorderShapeOptions {
    pub fn get(&self, surface: BorderSurface) -> (r: Option<BorderShape>)
        ensures
            r == self.surfaces@[surface_index_spec(surface)],
    {
        self.surfaces[surface.index()]
    }

    pub fn set(&mut self, surface: BorderSurface, shape: BorderShape)
        ensures
            final(self).default == old(self).default,
            final(self).surfaces@ == old(self).surfaces@.update(surface_index_spec(surface), Some(shape)),
    {
        let i = surface.index();
        self.surfaces.set(i, Some(shape));
    }
}

/// Validated highlight and border settings from the theme file, by group.
pub struct ThemeOptions {
    pub highlights: IdMap<HighlightDefinitionOptions>,
    pub border_shapes: BorderShapeOptions,
}

impl ThemeOptions {
    pub fn new() -> (r: ThemeOptions)
        ensures
            r.highlights@ == Map::<u64, HighlightDefinitionOptions>::empty(),
            r.border_shapes.default is None,
            forall|i: int| 0 <= i < 7 ==> r.border_shapes.surfaces@[i] is None,
    {
        ThemeOptions {
            highlights: IdMap::new(),
            border_shapes: BorderShapeOptions { default: None, surfaces: [None, None, None, None, None, None, None] },
        }
    }

    pub fn highlights(&self) -> (r: &IdMap<HighlightDefinitionOptions>)
        ensures
            r == &self.highlights,
    {
        &self.highlights
    }

    pub fn border_shapes(&self) -> (r: &BorderShapeOptions)
        ensures
            r == &self.border_shapes,
    {
        &self.border_shapes
    }
}

/// A highlight definition with its strings taken by their text.
#[verifier::ext_equal]
pub struct HighlightView {
    pub link: Option<HighlightLinkOptions>,
    pub foreground: Option<Seq<char>>,
    pub background: Option<Seq<char>>,
    pub bold: Option<bool>,
    pub italic: Option<bool>,
    pub dim: Option<bool>,
    pub underline: Option<bool>,
    pub strikethrough: Option<bool>,
}

pub open spec fn opt_text(s: Option<String>) -> Option<Seq<char>> {
    match s {
        Some(x) => Some(x@),
        None => None,
    }
}

pub open spec fn highlight_view(d: HighlightDefinitionOptions) -> HighlightView {
    HighlightView {
        link: d.link,
        foreground: opt_text(d.foreground),
        background: opt_text(d.background),
        bold: d.bold,
        italic: d.italic,
        dim: d.dim,
        underline: d.underline,
        strikethrough: d.strikethrough,
    }
}

pub open spec fn empty_highlight() -> HighlightView {
    HighlightView {
        link: None,
        foreground: None,
        background: None,
        bold: None,
        italic: None,
        dim: None,
        underline: None,
        strikethrough: None,
    }
}

/// The theme read so far, with the warnings given so far.
#[verifier::ext_equal]
pub struct ThemeView {
    pub highlights: Map<u64, HighlightView>,
    pub default_shape: Option<BorderShape>,
    pub surfaces: Seq<Option<BorderShape>>,
    pub warnings: Seq<Seq<char>>,
}

pub open spec fn theme_view(o: ThemeOptions, warnings: Seq<String>) -> ThemeView {
    ThemeView {
        highlights: o.highlights@.map_values(|d: HighlightDefinitionOptions| highlight_view(d)),
        default_shape: o.border_shapes.default,
        surfaces: o.border_shapes.surfaces@,
        warnings: warnings.map_values(|w: String| w@),
    }
}

pub open spec fn warn(st: ThemeView, w: Seq<char>) -> ThemeView {
    ThemeView { warnings: st.warnings.push(w), ..st }
}

pub open spec fn def_of(st: ThemeView, g: HighlightGroup) -> HighlightView {
    if st.highlights.dom().contains(g.index as u64) {
        st.highlights[g.index as u64]
    } else {
        empty_highlight()
    }
}

pub open spec fn set_def(st: ThemeView, g: HighlightGroup, d: HighlightView) -> ThemeView {
    ThemeView { highlights: st.highlights.insert(g.index as u64, d), ..st }
}

pub open spec fn type_warning(g: HighlightGroup, field: Seq<char>, expected: Seq<char>) -> Seq<char> {
    "[highlight."@ + highlight_name_spec(g.index as int) + "] "@ + field + " must be "@ + expected + " and was ignored"@
}

/// One field of a `[highlight.<group>]` table.
pub open spec fn highlight_field_step(st: ThemeView, g: HighlightGroup, field: Seq<char>, value: TomlValue) -> ThemeView {
    let d = def_of(st, g);
    if field == "link"@ {
        match tstr(value) {
            Some(s) => if s == "none"@ {
                set_def(st, g, HighlightView { link: Some(HighlightLinkOptions::Detached), ..d })
            } else {
                match group_from_name_spec(s) {
                    Some(l) => set_def(st, g, HighlightView { link: Some(HighlightLinkOptions::Inherit(l)), ..d }),
                    None => warn(
                        st,
                        "[highlight."@ + highlight_name_spec(g.index as int) + "] link references unknown group "@ + s
                            + " and was ignored"@,
                    ),
                }
            },
            None => warn(st, type_warning(g, field, "a string"@)),
        }
    } else if field == "foreground"@ {
        match tstr(value) {
            Some(s) => set_def(st, g, HighlightView { foreground: Some(s), ..d }),
            None => warn(st, type_warning(g, field, "a string"@)),
        }
    } else if field == "background"@ {
        match tstr(value) {
            Some(s) => set_def(st, g, HighlightView { background: Some(s), ..d }),
            None => warn(st, type_warning(g, field, "a string"@)),
        }
    } else if field == "bold"@ {
        match tbool(value) {
            Some(b) => set_def(st, g, HighlightView { bold: Some(b), ..d }),
            None => warn(st, type_warning(g, field, "a boolean"@)),
        }
    } else if field == "italic"@ {
        match tbool(value) {
            Some(b) => set_def(st, g, HighlightView { italic: Some(b), ..d }),
            None => warn(st, type_warning(g, field, "a boolean"@)),
        }
    } else if field == "dim"@ {
        match tbool(value) {
            Some(b) => set_def(st, g, HighlightView { dim: Some(b), ..d }),
            None => warn(st, type_warning(g, field, "a boolean"@)),
        }
    } else if field == "underline"@ {
        match tbool(value) {
            Some(b) => set_def(st, g, HighlightView { underline: Some(b), ..d }),
            None => warn(st, type_warning(g, field, "a boolean"@)),
        }
    } else if field == "strikethrough"@ {
        match tbool(value) {
            Some(b) => set_def(st, g, HighlightView { strikethrough: Some(b), ..d }),
            None => warn(st, type_warning(g, field, "a boolean"@)),
        }
    } else {
        warn(st, "[highlight."@ + highlight_name_spec(g.index as int) + "] "@ + field + " is unknown and was ignored"@)
    }
}

pub open spec fn highlight_fields_fold(st: ThemeView, g: HighlightGroup, fields: Seq<(String, TomlValue)>) -> ThemeView
    decreases fields.len(),
{
    if fields.len() == 0 {
        st
    } else {
        highlight_field_step(highlight_fields_fold(st, g, fields.drop_last()), g, fields.last().0@, fields.last().1)
    }
}

/// One `[highlight.<name>]` entry.
pub open spec fn highlight_entry_step(st: ThemeView, name: Seq<char>, value: TomlValue) -> ThemeView {
    match group_from_name_spec(name) {
        None => warn(st, "[highlight] "@ + name + " is unknown and was ignored"@),
        Some(g) => match value {
            TomlValue::Table(fields) => highlight_fields_fold(st, g, fields@),
            _ => warn(st, "[highlight."@ + name + "] must be a table and was ignored"@),
        },
    }
}

pub open spec fn highlights_fold(st: ThemeView, entries: Seq<(String, TomlValue)>) -> ThemeView
    decreases entries.len(),
{
    if entries.len() == 0 {
        st
    } else {
        highlight_entry_step(highlights_fold(st, entries.drop_last()), entries.last().0@, entries.last().1)
    }
}

/// One `[ui.border]` entry: the default shape or one surface's.
pub open spec fn border_step(st: ThemeView, field: Seq<char>, value: TomlValue) -> ThemeView {
    let target = if field == "default"@ {
        Some(None::<BorderSurface>)
    } else {
        match surface_from_name_spec(field) {
            Some(s) => Some(Some(s)),
            None => None,
        }
    };
    match target {
        None => warn(st, "[ui.border] "@ + field + " is unknown and was ignored"@),
        Some(surface) => match tstr(value) {
            None => warn(st, "[ui.border] "@ + field + " must be a string and was ignored"@),
            Some(raw) => match shape_from_name_spec(raw) {
                None => warn(
                    st,
                    "[ui.border] "@ + field + " = \""@ + raw + "\" is not a supported border shape and was ignored"@,
                ),
                Some(shape) => match surface {
                    Some(s) => ThemeView { surfaces: st.surfaces.update(surface_index_spec(s), Some(shape)), ..st },
                    None => ThemeView { default_shape: Some(shape), ..st },
                },
            },
        },
    }
}

pub open spec fn border_fold(st: ThemeView, entries: Seq<(String, TomlValue)>) -> ThemeView
    decreases entries.len(),
{
    if entries.len() == 0 {
        st
    } else {
        border_step(border_fold(st, entries.drop_last()), entries.last().0@, entries.last().1)
    }
}

/// One `[ui]` entry; only `border` is known.
pub open spec fn ui_step(st: ThemeView, field: Seq<char>, value: TomlValue) -> ThemeView {
    if field != "border"@ {
        warn(st, "[ui] "@ + field + " is unknown and was ignored"@)
    } else {
        match value {
            TomlValue::Table(fields) => border_fold(st, fields@),
            _ => warn(st, "[ui.border] must be a table and was ignored"@),
        }
    }
}

pub open spec fn ui_fold(st: ThemeView, entries: Seq<(String, TomlValue)>) -> ThemeView
    decreases entries.len(),
{
    if entries.len() == 0 {
        st
    } else {
        ui_step(ui_fold(st, entries.drop_last()), entries.last().0@, entries.last().1)
    }
}

/// One top-level section of the theme file.
pub open spec fn section_step(st: ThemeView, section: Seq<char>, value: TomlValue) -> ThemeView {
    if section == "highlight"@ {
        match value {
            TomlValue::Table(t) => highlights_fold(st, t@),
            _ => warn(st, "[highlight] must be a table and was ignored"@),
        }
    } else if section == "ui"@ {
        match value {
            TomlValue::Table(t) => ui_fold(st, t@),
            _ => warn(st, "[ui] must be a table and was ignored"@),
        }
    } else {
        warn(st, "["@ + section + "] is unknown and was ignored"@)
    }
}

pub open spec fn sections_fold(st: ThemeView, entries: Seq<(String, TomlValue)>) -> ThemeView
    decreases entries.len(),
{
    if entries.len() == 0 {
        st
    } else {
        section_step(sections_fold(st, entries.drop_last()), entries.last().0@, entries.last().1)
    }
}

/// A theme with nothing set and no warning.
pub open spec fn initial_theme() -> ThemeView {
    ThemeView {
        highlights: Map::empty(),
        default_shape: None,
        surfaces: seq![None, None, None, None, None, None, None],
        warnings: Seq::empty(),
    }
}

pub open spec fn table_entries(v: TomlValue) -> Seq<(String, TomlValue)> {
    match v {
        TomlValue::Table(t) => t@,
        _ => Seq::empty(),
    }
}

/// What reading the theme file's root table gives.
pub open spec fn theme_of_document(root: TomlValue) -> ThemeView {
    sections_fold(initial_theme(), table_entries(root))
}

/// Reads the theme file's sections into options, collecting a warning for
/// each entry it skips.
pub struct ThemeLeafParser {
    pub options: ThemeOptions,
    pub warnings: Vec<String>,
}

pub open spec fn parser_view(p: ThemeLeafParser) -> ThemeView {
    theme_view(p.options, p.warnings@)
}

fn clone_text(s: &Option<String>) -> (r: Option<String>)
    ensures
        r == *s,
{
    match s {
        Some(x) => Some(x.clone()),
        None => None,
    }
}

fn empty_definition() -> (r: HighlightDefinitionOptions)
    ensures
        highlight_view(r) == empty_highlight(),
{
    HighlightDefinitionOptions {
        link: None,
        foreground: None,
        background: None,
        bold: None,
        italic: None,
        dim: None,
        underline: None,
        strikethrough: None,
    }
}

impl ThemeLeafParser {
    pub fn new() -> (r: ThemeLeafParser)
        ensures
            parser_view(r) == initial_theme(),
    {
        let r = ThemeLeafParser { options: ThemeOptions::new(), warnings: Vec::new() };
        proof {
            assert(parser_view(r).highlights =~= Map::<u64, HighlightView>::empty());
            assert(parser_view(r).surfaces =~= initial_theme().surfaces);
            assert(parser_view(r).warnings =~= Seq::<Seq<char>>::empty());
            assert(parser_view(r) =~= initial_theme());
        }
        r
    }

    fn push_warning(&mut self, w: String)
        ensures
            parser_view(*final(self)) == warn(parser_view(*old(self)), w@),
    {
        self.warnings.push(w);
        proof {
            assert(parser_view(*self).warnings =~= parser_view(*old(self)).warnings.push(w@));
            assert(parser_view(*self) =~= warn(parser_view(*old(self)), w@));
        }
    }

    /// The group's definition so far, or an empty one.
    fn current_highlight(&self, g: HighlightGroup) -> (r: HighlightDefinitionOptions)
        ensures
            highlight_view(r) == def_of(parser_view(*self), g),
    {
        match self.options.highlights.get(g.index as u64) {
            Some(d) => HighlightDefinitionOptions {
                link: d.link,
                foreground: clone_text(&d.foreground),
                background: clone_text(&d.background),
                bold: d.bold,
                italic: d.italic,
                dim: d.dim,
                underline: d.underline,
                strikethrough: d.strikethrough,
            },
            None => empty_definition(),
        }
    }

    fn set_highlight(&mut self, g: HighlightGroup, d: HighlightDefinitionOptions)
        ensures
            parser_view(*final(self)) == set_def(parser_view(*old(self)), g, highlight_view(d)),
    {
        self.options.highlights.insert(g.index as u64, d);
        proof {
            let f = |x: HighlightDefinitionOptions| highlight_view(x);
            assert(parser_view(*self).highlights =~= parser_view(*old(self)).highlights.insert(
                g.index as u64,
                highlight_view(d),
            ));
            assert(parser_view(*self) =~= set_def(parser_view(*old(self)), g, highlight_view(d)));
        }
    }

    fn type_warning(&mut self, g: HighlightGroup, field: &str, expected: &str)
        requires
            g.index < HIGHLIGHT_GROUP_COUNT,
        ensures
            parser_view(*final(self)) == warn(parser_view(*old(self)), type_warning(g, field@, expected@)),
    {
        let mut w = "[highlight.".to_owned();
        w.append(g.name());
        w.append("] ");
        w.append(field);
        w.append(" must be ");
        w.append(expected);
        w.append(" and was ignored");
        self.push_warning(w);
    }

    /// One field of a `[highlight.<group>]` table.
    fn parse_highlight_field(&mut self, g: HighlightGroup, field: &str, value: &TomlValue)
        requires
            g.index < HIGHLIGHT_GROUP_COUNT,
        ensures
            parser_view(*final(self)) == highlight_field_step(parser_view(*old(self)), g, field@, *value),
    {
        proof {
            reveal_strlit("link");
            reveal_strlit("none");
            reveal_strlit("foreground");
            reveal_strlit("background");
            reveal_strlit("bold");
            reveal_strlit("italic");
            reveal_strlit("dim");
            reveal_strlit("underline");
            reveal_strlit("strikethrough");
        }
        let d = self.current_highlight(g);
        if str_eq(field, "link") {
            match value.as_str() {
                Some(s) => {
                    if str_eq(s, "none") {
                        self.set_highlight(g, HighlightDefinitionOptions { link: Some(HighlightLinkOptions::Detached), ..d });
                    } else {
                        let found = HighlightGroup::from_name(s);
                        proof {
                            lemma_from_name_matches(s@, found);
                        }
                        match found {
                            Some(l) => {
                                self.set_highlight(
                                    g,
                                    HighlightDefinitionOptions { link: Some(HighlightLinkOptions::Inherit(l)), ..d },
                                );
                            },
                            None => {
                                let mut w = "[highlight.".to_owned();
                                w.append(g.name());
                                w.append("] link references unknown group ");
                                w.append(s);
                                w.append(" and was ignored");
                                self.push_warning(w);
                            },
                        }
                    }
                },
                None => self.type_warning(g, field, "a string"),
            }
        } else if str_eq(field, "foreground") {
            match value.as_str() {
                Some(s) => self.set_highlight(g, HighlightDefinitionOptions { foreground: Some(s.to_owned()), ..d }),
                None => self.type_warning(g, field, "a string"),
            }
        } else if str_eq(field, "background") {
            match value.as_str() {
                Some(s) => self.set_highlight(g, HighlightDefinitionOptions { background: Some(s.to_owned()), ..d }),
                None => self.type_warning(g, field, "a string"),
            }
        } else if str_eq(field, "bold") {
            match value.as_bool() {
                Some(b) => self.set_highlight(g, HighlightDefinitionOptions { bold: Some(b), ..d }),
                None => self.type_warning(g, field, "a boolean"),
            }
        } else if str_eq(field, "italic") {
            match value.as_bool() {
                Some(b) => self.set_highlight(g, HighlightDefinitionOptions { italic: Some(b), ..d }),
                None => self.type_warning(g, field, "a boolean"),
            }
        } else if str_eq(field, "dim") {
            match value.as_bool() {
                Some(b) => self.set_highlight(g, HighlightDefinitionOptions { dim: Some(b), ..d }),
                None => self.type_warning(g, field, "a boolean"),
            }
        } else if str_eq(field, "underline") {
            match value.as_bool() {
                Some(b) => self.set_highlight(g, HighlightDefinitionOptions { underline: Some(b), ..d }),
                None => self.type_warning(g, field, "a boolean"),
            }
        } else if str_eq(field, "strikethrough") {
            match value.as_bool() {
                Some(b) => self.set_highlight(g, HighlightDefinitionOptions { strikethrough: Some(b), ..d }),
                None => self.type_warning(g, field, "a boolean"),
            }
        } else {
            let mut w = "[highlight.".to_owned();
            w.append(g.name());
            w.append("] ");
            w.append(field);
            w.append(" is unknown and was ignored");
            self.push_warning(w);
        }
    }

    /// The fields of one `[highlight.<group>]` table, in order.
    pub fn parse_highlight_fields(&mut self, g: HighlightGroup, fields: &Vec<(String, TomlValue)>)
        requires
            g.index < HIGHLIGHT_GROUP_COUNT,
        ensures
            parser_view(*final(self)) == highlight_fields_fold(parser_view(*old(self)), g, fields@),
    {
        let ghost start = parser_view(*self);
        let n = fields.len();
        let mut i: usize = 0;
        proof {
            assert(fields@.subrange(0, 0) =~= Seq::<(String, TomlValue)>::empty());
        }
        while i < n
            invariant
                n == fields@.len(),
                i <= n,
                g.index < HIGHLIGHT_GROUP_COUNT,
                parser_view(*self) == highlight_fields_fold(start, g, fields@.subrange(0, i as int)),
            decreases n - i,
        {
            proof {
                assert(fields@.subrange(0, i + 1).drop_last() =~= fields@.subrange(0, i as int));
                assert(fields@.subrange(0, i + 1).last() == fields@[i as int]);
            }
            let (field, value) = &fields[i];
            self.parse_highlight_field(g, field.as_str(), value);
            i = i + 1;
        }
        proof {
            assert(fields@.subrange(0, n as int) =~= fields@);
        }
    }

    /// The `[highlight]` table: one style per known group.
    pub fn parse_highlights(&mut self, table: &Vec<(String, TomlValue)>)
        ensures
            parser_view(*final(self)) == highlights_fold(parser_view(*old(self)), table@),
    {
        let ghost start = parser_view(*self);
        let n = table.len();
        let mut i: usize = 0;
        proof {
            assert(table@.subrange(0, 0) =~= Seq::<(String, TomlValue)>::empty());
            reveal_strlit("[highlight] ");
        }
        while i < n
            invariant
                n == table@.len(),
                i <= n,
                parser_view(*self) == highlights_fold(start, table@.subrange(0, i as int)),
            decreases n - i,
        {
            proof {
                assert(table@.subrange(0, i + 1).drop_last() =~= table@.subrange(0, i as int));
                assert(table@.subrange(0, i + 1).last() == table@[i as int]);
            }
            let (name, value) = &table[i];
            let found = HighlightGroup::from_name(name.as_str());
            proof {
                lemma_from_name_matches(name@, found);
            }
            match found {
                None => {
                    let w = concat3("[highlight] ", name.as_str(), " is unknown and was ignored");
                    self.push_warning(w);
                },
                Some(g) => match value.as_table() {
                    Some(fields) => self.parse_highlight_fields(g, fields),
                    None => {
                        let w = concat3("[highlight.", name.as_str(), "] must be a table and was ignored");
                        self.push_warning(w);
                    },
                },
            }
            i = i + 1;
        }
        proof {
            assert(table@.subrange(0, n as int) =~= table@);
        }
    }

    /// The `[ui.border]` table: a default shape and one per surface.
    pub fn parse_border_shapes(&mut self, fields: &Vec<(String, TomlValue)>)
        ensures
            parser_view(*final(self)) == border_fold(parser_view(*old(self)), fields@),
    {
        let ghost start = parser_view(*self);
        let n = fields.len();
        let mut i: usize = 0;
        proof {
            assert(fields@.subrange(0, 0) =~= Seq::<(String, TomlValue)>::empty());
            reveal_strlit("default");
        }
        while i < n
            invariant
                n == fields@.len(),
                i <= n,
                parser_view(*self) == border_fold(start, fields@.subrange(0, i as int)),
            decreases n - i,
        {
            proof {
                assert(fields@.subrange(0, i + 1).drop_last() =~= fields@.subrange(0, i as int));
                assert(fields@.subrange(0, i + 1).last() == fields@[i as int]);
            }
            let (field, value) = &fields[i];
            let is_default = str_eq(field.as_str(), "default");
            let surface = if is_default {
                None
            } else {
                BorderSurface::from_name(field.as_str())
            };
            if !is_default && surface.is_none() {
                let w = concat3("[ui.border] ", field.as_str(), " is unknown and was ignored");
                self.push_warning(w);
            } else {
                match value.as_str() {
                    None => {
                        let w = concat3("[ui.border] ", field.as_str(), " must be a string and was ignored");
                        self.push_warning(w);
                    },
                    Some(raw) => match BorderShape::from_name(raw) {
                        None => {
                            let mut w = "[ui.border] ".to_owned();
                            w.append(field.as_str());
                            w.append(" = \"");
                            w.append(raw);
                            w.append("\" is not a supported border shape and was ignored");
                            self.push_warning(w);
                        },
                        Some(shape) => match surface {
                            Some(s) => {
                                self.options.border_shapes.set(s, shape);
                                proof {
                                    assert(parser_view(*self) =~= ThemeView {
                                        surfaces: border_fold(start, fields@.subrange(0, i as int)).surfaces.update(
                                            surface_index_spec(s),
                                            Some(shape),
                                        ),
                                        ..border_fold(start, fields@.subrange(0, i as int))
                                    });
                                }
                            },
                            None => {
                                self.options.border_shapes.default = Some(shape);
                                proof {
                                    assert(parser_view(*self) =~= ThemeView {
                                        default_shape: Some(shape),
                                        ..border_fold(start, fields@.subrange(0, i as int))
                                    });
                                }
                            },
                        },
                    },
                }
            }
            i = i + 1;
        }
        proof {
            assert(fields@.subrange(0, n as int) =~= fields@);
        }
    }

    /// The `[ui]` table; only `border` is known.
    pub fn parse_ui(&mut self, table: &Vec<(String, TomlValue)>)
        ensures
            parser_view(*final(self)) == ui_fold(parser_view(*old(self)), table@),
    {
        let ghost start = parser_view(*self);
        let n = table.len();
        let mut i: usize = 0;
        proof {
            assert(table@.subrange(0, 0) =~= Seq::<(String, TomlValue)>::empty());
            reveal_strlit("border");
            reveal_strlit("[ui.border] must be a table and was ignored");
        }
        while i < n
            invariant
                n == table@.len(),
                i <= n,
                parser_view(*self) == ui_fold(start, table@.subrange(0, i as int)),
            decreases n - i,
        {
            proof {
                assert(table@.subrange(0, i + 1).drop_last() =~= table@.subrange(0, i as int));
                assert(table@.subrange(0, i + 1).last() == table@[i as int]);
            }
            let (field, value) = &table[i];
            if !str_eq(field.as_str(), "border") {
                let w = concat3("[ui] ", field.as_str(), " is unknown and was ignored");
                self.push_warning(w);
            } else {
                match value.as_table() {
                    Some(fields) => self.parse_border_shapes(fields),
                    None => self.push_warning("[ui.border] must be a table and was ignored".to_owned()),
                }
            }
            i = i + 1;
        }
        proof {
            assert(table@.subrange(0, n as int) =~= table@);
        }
    }
}

/// Reads the theme file's root table: its `[highlight]` and `[ui]`
/// sections, with a warning for each entry skipped.
pub fn theme_options_from_table(root: &TomlValue) -> (r: (ThemeOptions, Vec<String>))
    ensures
        theme_view(r.0, r.1@) == theme_of_document(*root),
{
    let mut parser = ThemeLeafParser::new();
    let entries = match root.as_table() {
        Some(t) => t,
        None => {
            return (parser.options, parser.warnings);
        },
    };
    let ghost start = parser_view(parser);
    let n = entries.len();
    let mut i: usize = 0;
    proof {
        assert(entries@.subrange(0, 0) =~= Seq::<(String, TomlValue)>::empty());
        reveal_strlit("highlight");
        reveal_strlit("ui");
        reveal_strlit("[highlight] must be a table and was ignored");
        reveal_strlit("[ui] must be a table and was ignored");
    }
    while i < n
        invariant
            n == entries@.len(),
            i <= n,
            start == initial_theme(),
            table_entries(*root) == entries@,
            parser_view(parser) == sections_fold(start, entries@.subrange(0, i as int)),
        decreases n - i,
    {
        proof {
            assert(entries@.subrange(0, i + 1).drop_last() =~= entries@.subrange(0, i as int));
            assert(entries@.subrange(0, i + 1).last() == entries@[i as int]);
        }
        let (section, value) = &entries[i];
        if str_eq(section.as_str(), "highlight") {
            match value.as_table() {
                Some(t) => parser.parse_highlights(t),
                None => parser.push_warning("[highlight] must be a table and was ignored".to_owned()),
            }
        } else if str_eq(section.as_str(), "ui") {
            match value.as_table() {
                Some(t) => parser.parse_ui(t),
                None => parser.push_warning("[ui] must be a table and was ignored".to_owned()),
            }
        } else {
            let w = concat3("[", section.as_str(), "] is unknown and was ignored");
            parser.push_warning(w);
        }
        i = i + 1;
    }
    proof {
        assert(entries@.subrange(0, n as int) =~= entries@);
    }
    (parser.options, parser.warnings)
}

/// Reads the theme file: the options it sets and a warning for each entry
/// skipped, or the TOML parser's error.
pub fn parse_theme_options(content: &str) -> (r: Result<(ThemeOptions, Vec<String>), String>)
    ensures
        match r {
            Ok((options, warnings)) => toml_table_of(content@) matches Some(doc) && theme_view(options, warnings@)
                == theme_of_document(doc),
            Err(_) => toml_table_of(content@) is None,
        },
{
    match parse_toml_document(content) {
        Ok(doc) => Ok(theme_options_from_table(&doc)),
        Err(e) => Err(e),
    }
}

/// A string `background` in a `[highlight.<group>]` table sets that
/// group's background to it and leaves its foreground (and every other field
/// and group) as it was; a string `foreground` sets the foreground and leaves
/// the background.
pub proof fn lemma_color_fields_set_their_own_color(st: ThemeView, g: HighlightGroup, value: TomlValue, other: HighlightGroup)
    requires
        tstr(value) is Some,
        other.index != g.index,
    ensures
        ({
            let after = highlight_field_step(st, g, "background"@, value);
            &&& def_of(after, g).background == tstr(value)
            &&& def_of(after, g).foreground == def_of(st, g).foreground
            &&& def_of(after, g).link == def_of(st, g).link
            &&& def_of(after, other) == def_of(st, other)
            &&& after.warnings == st.warnings
        }),
        ({
            let after = highlight_field_step(st, g, "foreground"@, value);
            &&& def_of(after, g).foreground == tstr(value)
            &&& def_of(after, g).background == def_of(st, g).background
            &&& def_of(after, g).link == def_of(st, g).link
            &&& def_of(after, other) == def_of(st, other)
            &&& after.warnings == st.warnings
        }),
{
    reveal_strlit("link");
    reveal_strlit("foreground");
    reveal_strlit("background");
    assert("link"@ =~= seq!['l', 'i', 'n', 'k']);
    assert("foreground"@ =~= seq!['f', 'o', 'r', 'e', 'g', 'r', 'o', 'u', 'n', 'd']);
    assert("background"@ =~= seq!['b', 'a', 'c', 'k', 'g', 'r', 'o', 'u', 'n', 'd']);
    assert("background"@ != "foreground"@ && "background"@[0] != "foreground"@[0]);
}

} // verus!
