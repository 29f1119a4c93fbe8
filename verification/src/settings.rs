//! The settings panel: its rows, keyboard and mouse editing, and the sidebar
//! component list editor. The panel edits a plain model of the configured
//! values; what needs floating point or the configuration's own defaults
//! (colors, section resets) comes back as an effect for the caller.
use vstd::prelude::*;

use crate::geometry::Rect;
use crate::keys::{Action, SettingsEditMode};
use crate::layout::SidebarComponent;

verus! {

/// Actions returned to the caller so it can apply side effects.
#[derive(Debug, Clone, Copy, PartialEq, Eq, Structural)]
pub enum SettingsAction {
    ToggleSettings,
}

/// Which HSV component is being edited in the color picker.
#[derive(Debug, Clone, Copy, PartialEq, Eq, Structural)]
pub enum HsvComponent {
    H,
    S,
    V,
}

/// The configuration sections the rows belong to.
#[derive(Debug, Clone, Copy, PartialEq, Eq, Structural)]
pub enum Section {
    Server,
    Layout,
    Playback,
    Sidebar,
    Colors,
    General,
}

/// The configured values the settings rows edit.
#[derive(Debug, Clone, Copy, PartialEq, Eq, Structural)]
pub enum FieldId {
    BaseUrl,
    Username,
    Password,
    Transcode,
    AlbumArtStyle,
    AlbumSpacing,
    UseTerminalBackground,
    ShowInlineLyrics,
    ScrollMultiplier,
    SidebarEnabled,
    SidebarPosition,
    SidebarComponents,
    SimilarSongsCount,
    ApplyReplayGain,
    ReplayGainPreamp,
    TickRate,
}

/// What a settings row is and how it edits its value.
#[derive(Debug, Clone, Copy, PartialEq, Eq, Structural)]
pub enum RowKind {
    /// Blank line between sections for visual spacing.
    SectionSpacer,
    SectionHeader,
    BoolField(FieldId),
    StringField { field: FieldId, password: bool },
    UsizeField { field: FieldId, min: usize, max: usize },
    /// A floating-point field; its bounds belong to the field.
    F32Field(FieldId),
    U64Field { field: FieldId, low: u64, high: u64 },
    /// An enumeration cycled through its `variants` values in order.
    EnumField { field: FieldId, variants: usize },
    /// An enumeration held as an index into named `variants`.
    EnumFieldDyn { field: FieldId, variants: usize },
    /// An ordered multi-component list with add/remove/reorder editing.
    ComponentList(FieldId),
    /// The color at `index` of the style.
    HsvField { index: usize },
}

/// One row of the settings list.
pub struct SettingsRow {
    pub kind: RowKind,
    pub label: String,
}

/// A group of style colors: its name, the labels of its colors, and the
/// style index of its first color.
pub struct ColorGroup {
    pub name: String,
    pub labels: Vec<String>,
    pub start: usize,
}

/// The section a field belongs to.
pub open spec fn field_section(f: FieldId) -> Section {
    match f {
        FieldId::BaseUrl | FieldId::Username | FieldId::Password | FieldId::Transcode => Section::Server,
        FieldId::AlbumArtStyle | FieldId::AlbumSpacing | FieldId::UseTerminalBackground
        | FieldId::ShowInlineLyrics | FieldId::ScrollMultiplier => Section::Layout,
        FieldId::SidebarEnabled | FieldId::SidebarPosition | FieldId::SidebarComponents
        | FieldId::SimilarSongsCount => Section::Sidebar,
        FieldId::ApplyReplayGain | FieldId::ReplayGainPreamp => Section::Playback,
        FieldId::TickRate => Section::General,
    }
}

/// The section a field belongs to.
pub fn section_of(f: FieldId) -> (s: Section)
    ensures
        s == field_section(f),
{
    match f {
        FieldId::BaseUrl | FieldId::Username | FieldId::Password | FieldId::Transcode => Section::Server,
        FieldId::AlbumArtStyle | FieldId::AlbumSpacing | FieldId::UseTerminalBackground
        | FieldId::ShowInlineLyrics | FieldId::ScrollMultiplier => Section::Layout,
        FieldId::SidebarEnabled | FieldId::SidebarPosition | FieldId::SidebarComponents
        | FieldId::SimilarSongsCount => Section::Sidebar,
        FieldId::ApplyReplayGain | FieldId::ReplayGainPreamp => Section::Playback,
        FieldId::TickRate => Section::General,
    }
}

/// The section of a row, if it edits something (colors are their own
/// section).
pub open spec fn row_section(k: RowKind) -> Option<Section> {
    match k {
        RowKind::SectionSpacer | RowKind::SectionHeader => None,
        RowKind::BoolField(f) => Some(field_section(f)),
        RowKind::StringField { field, .. } => Some(field_section(field)),
        RowKind::UsizeField { field, .. } => Some(field_section(field)),
        RowKind::F32Field(f) => Some(field_section(f)),
        RowKind::U64Field { field, .. } => Some(field_section(field)),
        RowKind::EnumField { field, .. } => Some(field_section(field)),
        RowKind::EnumFieldDyn { field, .. } => Some(field_section(field)),
        RowKind::ComponentList(f) => Some(field_section(f)),
        RowKind::HsvField { .. } => Some(Section::Colors),
    }
}

/// Whether a row can be selected (spacers and section headers cannot).
pub open spec fn selectable(k: RowKind) -> bool {
    !(k is SectionSpacer || k is SectionHeader)
}

/// Returns `true` for rows that cannot be selected (spacers and section
/// headers).
pub fn is_non_selectable(row: &SettingsRow) -> (b: bool)
    ensures
        b == !selectable(row.kind),
{
    match row.kind {
        RowKind::SectionSpacer | RowKind::SectionHeader => true,
        _ => false,
    }
}

// ── The rows ─────────────────────────────────────────────────────────────

/// What a row list holds: each row's kind and label.
pub open spec fn rows_view(rows: Seq<SettingsRow>) -> Seq<(RowKind, Seq<char>)> {
    rows.map_values(|r: SettingsRow| (r.kind, r.label@))
}

/// The rows before the colors: server, layout, sidebar and playback.
pub open spec fn head_rows(album_art_styles: usize) -> Seq<(RowKind, Seq<char>)> {
    seq![
        (RowKind::SectionHeader, "Server (changes reload library)"@),
        (RowKind::StringField { field: FieldId::BaseUrl, password: false }, "Base URL"@),
        (RowKind::StringField { field: FieldId::Username, password: false }, "Username"@),
        (RowKind::StringField { field: FieldId::Password, password: true }, "Password"@),
        (RowKind::BoolField(FieldId::Transcode), "Transcode"@),
        (RowKind::SectionSpacer, ""@),
        (RowKind::SectionHeader, "Layout"@),
        (RowKind::EnumField { field: FieldId::AlbumArtStyle, variants: album_art_styles }, "Album art style"@),
        (RowKind::UsizeField { field: FieldId::AlbumSpacing, min: 0, max: 10 }, "Album spacing"@),
        (RowKind::BoolField(FieldId::UseTerminalBackground), "Use terminal background"@),
        (RowKind::BoolField(FieldId::ShowInlineLyrics), "Inline lyrics overlay"@),
        (RowKind::F32Field(FieldId::ScrollMultiplier), "Scroll multiplier"@),
        (RowKind::SectionSpacer, ""@),
        (RowKind::SectionHeader, "Sidebar"@),
        (RowKind::BoolField(FieldId::SidebarEnabled), "Sidebar enabled"@),
        (RowKind::EnumFieldDyn { field: FieldId::SidebarPosition, variants: 2 }, "Sidebar position"@),
        (RowKind::ComponentList(FieldId::SidebarComponents), "Sidebar components"@),
        (RowKind::UsizeField { field: FieldId::SimilarSongsCount, min: 1, max: 100 }, "Similar songs count"@),
        (RowKind::SectionSpacer, ""@),
        (RowKind::SectionHeader, "Playback"@),
        (RowKind::BoolField(FieldId::ApplyReplayGain), "Apply ReplayGain"@),
        (RowKind::F32Field(FieldId::ReplayGainPreamp), "ReplayGain preamp (dB)"@),
        (RowKind::SectionSpacer, ""@),
        (RowKind::SectionSpacer, ""@)
    ]
}

/// The color rows: for each group a header with its name, then one row per
/// color.
pub open spec fn color_rows(groups: Seq<ColorGroup>) -> Seq<(RowKind, Seq<char>)>
    decreases groups.len(),
{
    if groups.len() == 0 {
        Seq::empty()
    } else {
        let g = groups.last();
        color_rows(groups.drop_last()) + seq![(RowKind::SectionHeader, g.name@)]
            + Seq::new(g.labels@.len(), |k: int| (RowKind::HsvField { index: (g.start + k) as usize }, g.labels@[k]@))
    }
}

/// The rows after the colors: the app section.
pub open spec fn tail_rows() -> Seq<(RowKind, Seq<char>)> {
    seq![
        (RowKind::SectionSpacer, ""@),
        (RowKind::SectionHeader, "App"@),
        (RowKind::U64Field { field: FieldId::TickRate, low: 10, high: 1000 }, "Tick rate (ms)"@)
    ]
}

/// All the rows of the settings list.
pub open spec fn all_rows(groups: Seq<ColorGroup>, album_art_styles: usize) -> Seq<(RowKind, Seq<char>)> {
    head_rows(album_art_styles) + color_rows(groups) + tail_rows()
}

/// A row of the given kind and label.
fn mk_row(kind: RowKind, label: &str) -> (r: SettingsRow)
    ensures
        r.kind == kind,
        r.label@ == label@,
{
    SettingsRow { kind, label: label.to_owned() }
}

/// Appends a row, keeping track of the view.
fn push_row(rows: &mut Vec<SettingsRow>, kind: RowKind, label: &str)
    ensures
        rows_view(final(rows)@) == rows_view(old(rows)@).push((kind, label@)),
{
    let ghost before = rows_view(rows@);
    rows.push(mk_row(kind, label));
    assert(rows_view(rows@) =~= before.push((kind, label@)));
}

/// Builds the settings rows: the server, layout, sidebar and playback
/// sections, a header and color rows per color group, then the app section.
/// `album_art_styles` is how many album art styles there are.
pub fn build_rows(groups: &Vec<ColorGroup>, album_art_styles: usize) -> (rows: Vec<SettingsRow>)
    requires
        forall|g: int| 0 <= g < groups@.len() ==> (#[trigger] groups@[g]).start + groups@[g].labels@.len() <= usize::MAX,
    ensures
        rows_view(rows@) == all_rows(groups@, album_art_styles),
{
    let mut rows: Vec<SettingsRow> = Vec::new();
    push_row(&mut rows, RowKind::SectionHeader, "Server (changes reload library)");
    push_row(&mut rows, RowKind::StringField { field: FieldId::BaseUrl, password: false }, "Base URL");
    push_row(&mut rows, RowKind::StringField { field: FieldId::Username, password: false }, "Username");
    push_row(&mut rows, RowKind::StringField { field: FieldId::Password, password: true }, "Password");
    push_row(&mut rows, RowKind::BoolField(FieldId::Transcode), "Transcode");
    push_row(&mut rows, RowKind::SectionSpacer, "");
    push_row(&mut rows, RowKind::SectionHeader, "Layout");
    push_row(&mut rows, RowKind::EnumField { field: FieldId::AlbumArtStyle, variants: album_art_styles }, "Album art style");
    push_row(&mut rows, RowKind::UsizeField { field: FieldId::AlbumSpacing, min: 0, max: 10 }, "Album spacing");
    push_row(&mut rows, RowKind::BoolField(FieldId::UseTerminalBackground), "Use terminal background");
    push_row(&mut rows, RowKind::BoolField(FieldId::ShowInlineLyrics), "Inline lyrics overlay");
    push_row(&mut rows, RowKind::F32Field(FieldId::ScrollMultiplier), "Scroll multiplier");
    push_row(&mut rows, RowKind::SectionSpacer, "");
    push_row(&mut rows, RowKind::SectionHeader, "Sidebar");
    push_row(&mut rows, RowKind::BoolField(FieldId::SidebarEnabled), "Sidebar enabled");
    push_row(&mut rows, RowKind::EnumFieldDyn { field: FieldId::SidebarPosition, variants: 2 }, "Sidebar position");
    push_row(&mut rows, RowKind::ComponentList(FieldId::SidebarComponents), "Sidebar components");
    push_row(&mut rows, RowKind::UsizeField { field: FieldId::SimilarSongsCount, min: 1, max: 100 }, "Similar songs count");
    push_row(&mut rows, RowKind::SectionSpacer, "");
    push_row(&mut rows, RowKind::SectionHeader, "Playback");
    push_row(&mut rows, RowKind::BoolField(FieldId::ApplyReplayGain), "Apply ReplayGain");
    push_row(&mut rows, RowKind::F32Field(FieldId::ReplayGainPreamp), "ReplayGain preamp (dB)");
    push_row(&mut rows, RowKind::SectionSpacer, "");
    push_row(&mut rows, RowKind::SectionSpacer, "");
    assert(rows_view(rows@) =~= head_rows(album_art_styles));
    let mut g: usize = 0;
    assert(groups@.take(0) =~= Seq::<ColorGroup>::empty());
    while g < groups.len()
        invariant
            g <= groups.len(),
            forall|h: int| 0 <= h < groups@.len() ==> (#[trigger] groups@[h]).start + groups@[h].labels@.len() <= usize::MAX,
            rows_view(rows@) == head_rows(album_art_styles) + color_rows(groups@.take(g as int)),
        decreases groups.len() - g,
    {
        let group = &groups[g];
        push_row(&mut rows, RowKind::SectionHeader, group.name.as_str());
        let ghost mid = rows_view(rows@);
        let mut k: usize = 0;
        while k < group.labels.len()
            invariant
                k <= group.labels.len(),
                group.start + group.labels@.len() <= usize::MAX,
                rows_view(rows@) == mid + Seq::new(k as nat, |j: int| (RowKind::HsvField { index: (group.start + j) as usize }, group.labels@[j]@)),
            decreases group.labels.len() - k,
        {
            push_row(&mut rows, RowKind::HsvField { index: group.start + k }, group.labels[k].as_str());
            assert(Seq::new((k + 1) as nat, |j: int| (RowKind::HsvField { index: (group.start + j) as usize }, group.labels@[j]@))
                =~= Seq::new(k as nat, |j: int| (RowKind::HsvField { index: (group.start + j) as usize }, group.labels@[j]@))
                    .push((RowKind::HsvField { index: (group.start + k) as usize }, group.labels@[k as int]@)));
            k = k + 1;
        }
        proof {
            let t = groups@.take(g + 1);
            assert(t.drop_last() =~= groups@.take(g as int));
            assert(t.last() == groups@[g as int]);
            assert(rows_view(rows@) =~= head_rows(album_art_styles) + color_rows(t));
        }
        g = g + 1;
    }
    assert(groups@.take(groups.len() as int) =~= groups@);
    let ghost before_tail = rows_view(rows@);
    push_row(&mut rows, RowKind::SectionSpacer, "");
    push_row(&mut rows, RowKind::SectionHeader, "App");
    push_row(&mut rows, RowKind::U64Field { field: FieldId::TickRate, low: 10, high: 1000 }, "Tick rate (ms)");
    assert(rows_view(rows@) =~= before_tail + tail_rows());
    rows
}

// ── The values the rows edit ─────────────────────────────────────────────

/// The configured values the settings rows edit, as plain values. The
/// sidebar position and the album art style are indexes into their
/// variants; the two floating-point fields are held as the text the panel
/// shows for them (one decimal).
pub struct SettingsValues {
    pub base_url: String,
    pub username: String,
    pub password: String,
    pub transcode: bool,
    pub album_art_style: usize,
    pub album_spacing: usize,
    pub use_terminal_background: bool,
    pub show_inline_lyrics: bool,
    pub scroll_multiplier_text: String,
    pub sidebar_enabled: bool,
    pub sidebar_position: usize,
    pub components: Vec<SidebarComponent>,
    pub similar_songs_count: usize,
    pub apply_replaygain: bool,
    pub replaygain_preamp_text: String,
    pub tick_rate_ms: u64,
}

/// The value of a boolean field.
pub open spec fn get_bool(v: SettingsValues, f: FieldId) -> bool {
    match f {
        FieldId::Transcode => v.transcode,
        FieldId::UseTerminalBackground => v.use_terminal_background,
        FieldId::ShowInlineLyrics => v.show_inline_lyrics,
        FieldId::SidebarEnabled => v.sidebar_enabled,
        FieldId::ApplyReplayGain => v.apply_replaygain,
        _ => false,
    }
}

/// `v` with boolean field `f` set to `b`.
pub open spec fn set_bool(v: SettingsValues, f: FieldId, b: bool) -> SettingsValues {
    match f {
        FieldId::Transcode => SettingsValues { transcode: b, ..v },
        FieldId::UseTerminalBackground => SettingsValues { use_terminal_background: b, ..v },
        FieldId::ShowInlineLyrics => SettingsValues { show_inline_lyrics: b, ..v },
        FieldId::SidebarEnabled => SettingsValues { sidebar_enabled: b, ..v },
        FieldId::ApplyReplayGain => SettingsValues { apply_replaygain: b, ..v },
        _ => v,
    }
}

/// The text of a string field, or the shown text of a floating-point one.
pub open spec fn get_text(v: SettingsValues, f: FieldId) -> Seq<char> {
    match f {
        FieldId::BaseUrl => v.base_url@,
        FieldId::Username => v.username@,
        FieldId::Password => v.password@,
        FieldId::ScrollMultiplier => v.scroll_multiplier_text@,
        FieldId::ReplayGainPreamp => v.replaygain_preamp_text@,
        _ => Seq::empty(),
    }
}

/// The value of an index-valued field (counts, spacing, enumeration
/// indexes).
pub open spec fn get_usize(v: SettingsValues, f: FieldId) -> usize {
    match f {
        FieldId::AlbumArtStyle => v.album_art_style,
        FieldId::AlbumSpacing => v.album_spacing,
        FieldId::SidebarPosition => v.sidebar_position,
        FieldId::SimilarSongsCount => v.similar_songs_count,
        _ => 0,
    }
}

/// `v` with index-valued field `f` set to `n`.
pub open spec fn set_usize(v: SettingsValues, f: FieldId, n: usize) -> SettingsValues {
    match f {
        FieldId::AlbumArtStyle => SettingsValues { album_art_style: n, ..v },
        FieldId::AlbumSpacing => SettingsValues { album_spacing: n, ..v },
        FieldId::SidebarPosition => SettingsValues { sidebar_position: n, ..v },
        FieldId::SimilarSongsCount => SettingsValues { similar_songs_count: n, ..v },
        _ => v,
    }
}

/// Reads a boolean field.
pub fn read_bool(v: &SettingsValues, f: FieldId) -> (b: bool)
    ensures
        b == get_bool(*v, f),
{
    match f {
        FieldId::Transcode => v.transcode,
        FieldId::UseTerminalBackground => v.use_terminal_background,
        FieldId::ShowInlineLyrics => v.show_inline_lyrics,
        FieldId::SidebarEnabled => v.sidebar_enabled,
        FieldId::ApplyReplayGain => v.apply_replaygain,
        _ => false,
    }
}

/// Writes a boolean field.
pub fn write_bool(v: &mut SettingsValues, f: FieldId, b: bool)
    ensures
        *final(v) == set_bool(*old(v), f, b),
{
    match f {
        FieldId::Transcode => v.transcode = b,
        FieldId::UseTerminalBackground => v.use_terminal_background = b,
        FieldId::ShowInlineLyrics => v.show_inline_lyrics = b,
        FieldId::SidebarEnabled => v.sidebar_enabled = b,
        FieldId::ApplyReplayGain => v.apply_replaygain = b,
        _ => {},
    }
}

/// Reads an index-valued field.
pub fn read_usize(v: &SettingsValues, f: FieldId) -> (n: usize)
    ensures
        n == get_usize(*v, f),
{
    match f {
        FieldId::AlbumArtStyle => v.album_art_style,
        FieldId::AlbumSpacing => v.album_spacing,
        FieldId::SidebarPosition => v.sidebar_position,
        FieldId::SimilarSongsCount => v.similar_songs_count,
        _ => 0,
    }
}

/// Writes an index-valued field.
pub fn write_usize(v: &mut SettingsValues, f: FieldId, n: usize)
    ensures
        *final(v) == set_usize(*old(v), f, n),
{
    match f {
        FieldId::AlbumArtStyle => v.album_art_style = n,
        FieldId::AlbumSpacing => v.album_spacing = n,
        FieldId::SidebarPosition => v.sidebar_position = n,
        FieldId::SimilarSongsCount => v.similar_songs_count = n,
        _ => {},
    }
}

/// Reads a text field (or the shown text of a floating-point field).
pub fn read_text(v: &SettingsValues, f: FieldId) -> (s: String)
    ensures
        s@ == get_text(*v, f),
{
    match f {
        FieldId::BaseUrl => v.base_url.clone(),
        FieldId::Username => v.username.clone(),
        FieldId::Password => v.password.clone(),
        FieldId::ScrollMultiplier => v.scroll_multiplier_text.clone(),
        FieldId::ReplayGainPreamp => v.replaygain_preamp_text.clone(),
        _ => String::new(),
    }
}

/// `v` with the text field `f` set to `t` (the string fields only).
pub open spec fn text_set(v: SettingsValues, f: FieldId, t: Seq<char>, w: SettingsValues) -> bool {
    match f {
        FieldId::BaseUrl => w == SettingsValues { base_url: w.base_url, ..v } && w.base_url@ == t,
        FieldId::Username => w == SettingsValues { username: w.username, ..v } && w.username@ == t,
        FieldId::Password => w == SettingsValues { password: w.password, ..v } && w.password@ == t,
        _ => w == v,
    }
}

/// Writes a string field.
pub fn write_text(v: &mut SettingsValues, f: FieldId, t: String)
    ensures
        text_set(*old(v), f, t@, *final(v)),
{
    match f {
        FieldId::BaseUrl => v.base_url = t,
        FieldId::Username => v.username = t,
        FieldId::Password => v.password = t,
        _ => {},
    }
}

// ── The panel state ──────────────────────────────────────────────────────

/// The settings panel: the rows, the selected row, whether it is being
/// edited (with the text typed so far, the color component, and the
/// component-list cursor and whether its item is armed), and what the last
/// draw showed (scroll offset, inner area, visible height).
pub struct SettingsState {
    pub selected_index: usize,
    pub editing: bool,
    pub edit_buffer: String,
    pub hsv_component: HsvComponent,
    pub component_list_sel: usize,
    pub component_list_armed: bool,
    pub rows: Vec<SettingsRow>,
    pub scroll_offset: usize,
    pub last_inner_area: Option<Rect>,
    pub last_visible_height: usize,
}

/// The first selectable row at or after `i`.
pub open spec fn scan_down(rows: Seq<RowKind>, i: int) -> Option<int>
    decreases rows.len() - i,
{
    if i < 0 || i >= rows.len() {
        None
    } else if selectable(rows[i]) {
        Some(i)
    } else {
        scan_down(rows, i + 1)
    }
}

/// The first selectable row at or before `i`.
pub open spec fn scan_up(rows: Seq<RowKind>, i: int) -> Option<int>
    decreases i + 1,
{
    if i < 0 || i >= rows.len() {
        None
    } else if selectable(rows[i]) {
        Some(i)
    } else {
        scan_up(rows, i - 1)
    }
}

/// The kinds of the rows.
pub open spec fn kinds(rows: Seq<SettingsRow>) -> Seq<RowKind> {
    rows.map_values(|r: SettingsRow| r.kind)
}

/// The row selected initially: the first selectable one, or row 0.
pub open spec fn initial_selection(rows: Seq<SettingsRow>) -> usize {
    match scan_down(kinds(rows), 0) {
        Some(i) => i as usize,
        None => 0,
    }
}

/// `scan_down` finds a selectable row no earlier than where it starts.
pub proof fn lemma_scan_down(rows: Seq<RowKind>, i: int)
    ensures
        scan_down(rows, i) matches Some(j) ==> i <= j < rows.len() && selectable(rows[j])
            && forall|k: int| i <= k < j ==> !selectable(#[trigger] rows[k]),
        scan_down(rows, i) is None && 0 <= i ==> forall|k: int| i <= k < rows.len() ==> !selectable(#[trigger] rows[k]),
    decreases rows.len() - i,
{
    if 0 <= i < rows.len() && !selectable(rows[i]) {
        lemma_scan_down(rows, i + 1);
    }
}

/// `scan_up` finds a selectable row no later than where it starts.
pub proof fn lemma_scan_up(rows: Seq<RowKind>, i: int)
    ensures
        scan_up(rows, i) matches Some(j) ==> 0 <= j <= i && selectable(rows[j])
            && forall|k: int| j < k <= i ==> !selectable(#[trigger] rows[k]),
        scan_up(rows, i) is None && i < rows.len() ==> forall|k: int| 0 <= k <= i ==> !selectable(#[trigger] rows[k]),
    decreases i + 1,
{
    if 0 <= i < rows.len() && !selectable(rows[i]) {
        lemma_scan_up(rows, i - 1);
    }
}

/// The first selectable row at or after `start`.
fn first_selectable_from(rows: &Vec<SettingsRow>, start: usize) -> (r: Option<usize>)
    ensures
        r == (match scan_down(kinds(rows@), start as int) {
            Some(j) => Some(j as usize),
            None => None::<usize>,
        }),
{
    let ghost ks = kinds(rows@);
    let mut i = start;
    proof {
        lemma_scan_down(ks, start as int);
    }
    while i < rows.len()
        invariant
            start <= i,
            ks == kinds(rows@),
            scan_down(ks, start as int) == scan_down(ks, i as int),
        decreases rows.len() - i,
    {
        assert(ks[i as int] == rows@[i as int].kind);
        if !is_non_selectable(&rows[i]) {
            return Some(i);
        }
        i = i + 1;
    }
    None
}

/// The first selectable row at or before `start`, searching upward.
fn last_selectable_to(rows: &Vec<SettingsRow>, start: usize) -> (r: Option<usize>)
    requires
        start < rows.len(),
    ensures
        r == (match scan_up(kinds(rows@), start as int) {
            Some(j) => Some(j as usize),
            None => None::<usize>,
        }),
{
    let ghost ks = kinds(rows@);
    let mut i = start;
    loop
        invariant
            i <= start < rows.len(),
            ks == kinds(rows@),
            scan_up(ks, start as int) == scan_up(ks, i as int),
        decreases i,
    {
        assert(ks[i as int] == rows@[i as int].kind);
        if !is_non_selectable(&rows[i]) {
            return Some(i);
        }
        if i == 0 {
            assert(scan_up(ks, -1) is None);
            return None;
        }
        i = i - 1;
    }
}

impl SettingsState {
    /// The state is usable: the selected row exists.
    pub open spec fn wf(self) -> bool {
        self.selected_index < self.rows@.len()
    }

    /// A panel over `rows`, on the first selectable row, not editing.
    pub fn new(rows: Vec<SettingsRow>) -> (r: Self)
        ensures
            rows_view(r.rows@) == rows_view(rows@),
            kinds(r.rows@) == kinds(rows@),
            r.selected_index == initial_selection(rows@),
            !r.editing,
            r.edit_buffer@.len() == 0,
            r.hsv_component == HsvComponent::H,
            r.component_list_sel == 0,
            !r.component_list_armed,
            r.scroll_offset == 0,
            r.last_inner_area is None,
            r.last_visible_height == 0,
    {
        let initial = match first_selectable_from(&rows, 0) {
            Some(i) => i,
            None => 0,
        };
        SettingsState {
            selected_index: initial,
            editing: false,
            edit_buffer: String::new(),
            hsv_component: HsvComponent::H,
            component_list_sel: 0,
            component_list_armed: false,
            rows,
            scroll_offset: 0,
            last_inner_area: None,
            last_visible_height: 0,
        }
    }

    /// Back to the first selectable row, not editing, scrolled to the top.
    pub fn reset(&mut self)
        ensures
            final(self).rows == old(self).rows,
            final(self).selected_index == initial_selection(old(self).rows@),
            !final(self).editing,
            final(self).edit_buffer@.len() == 0,
            final(self).hsv_component == HsvComponent::H,
            final(self).component_list_sel == 0,
            !final(self).component_list_armed,
            final(self).scroll_offset == 0,
            final(self).last_inner_area == old(self).last_inner_area,
            final(self).last_visible_height == old(self).last_visible_height,
    {
        let initial = match first_selectable_from(&self.rows, 0) {
            Some(i) => i,
            None => 0,
        };
        self.selected_index = initial;
        self.editing = false;
        self.edit_buffer = String::new();
        self.hsv_component = HsvComponent::H;
        self.component_list_sel = 0;
        self.component_list_armed = false;
        self.scroll_offset = 0;
    }

    /// The editing substate of the panel, used to pick the help bar
    /// bindings.
    pub fn edit_mode(&self) -> (m: SettingsEditMode)
        requires
            self.editing ==> self.wf(),
        ensures
            m == edit_mode_spec(*self),
    {
        if !self.editing {
            return SettingsEditMode::Navigating;
        }
        match self.rows[self.selected_index].kind {
            RowKind::HsvField { .. } => SettingsEditMode::HsvEdit,
            RowKind::ComponentList(_) => SettingsEditMode::ComponentList { armed: self.component_list_armed },
            _ => SettingsEditMode::TextEdit,
        }
    }
}

/// The editing substate: navigating, or editing a color, the component
/// list (armed or not), or text.
pub open spec fn edit_mode_spec(s: SettingsState) -> SettingsEditMode {
    if !s.editing {
        SettingsEditMode::Navigating
    } else {
        match s.rows@[s.selected_index as int].kind {
            RowKind::HsvField { .. } => SettingsEditMode::HsvEdit,
            RowKind::ComponentList(_) => SettingsEditMode::ComponentList { armed: s.component_list_armed },
            _ => SettingsEditMode::TextEdit,
        }
    }
}

/// Where a move by `delta` rows lands: the first selectable row from
/// `selected + delta` in the direction of the move, if there is one in the
/// list (counted in `i32`).
pub open spec fn moved_to(rows: Seq<RowKind>, selected: usize, delta: i32) -> Option<int> {
    let start = (selected as i32) + delta;
    if delta > 0 { scan_down(rows, start) } else { scan_up(rows, start) }
}

/// The selection after a move by `delta` rows: the row it lands on, or
/// unchanged where it finds none.
pub open spec fn move_result(rows: Seq<RowKind>, selected: usize, delta: i32) -> usize {
    match moved_to(rows, selected, delta) {
        Some(j) => j as usize,
        None => selected,
    }
}

/// Moves the selection by `delta` rows, skipping rows that cannot be
/// selected in the direction of the move; where no selectable row lies that
/// way, the selection stays.
pub fn move_selection(state: &mut SettingsState, delta: i32)
    requires
        delta != 0,
        old(state).rows@.len() <= i32::MAX,
        i32::MIN <= (old(state).selected_index as i32) + delta <= i32::MAX,
    ensures
        final(state).selected_index == move_result(kinds(old(state).rows@), old(state).selected_index, delta),
        final(state).rows == old(state).rows,
        final(state).editing == old(state).editing,
        final(state).edit_buffer == old(state).edit_buffer,
        final(state).hsv_component == old(state).hsv_component,
        final(state).component_list_sel == old(state).component_list_sel,
        final(state).component_list_armed == old(state).component_list_armed,
        final(state).scroll_offset == old(state).scroll_offset,
        final(state).last_inner_area == old(state).last_inner_area,
        final(state).last_visible_height == old(state).last_visible_height,
{
    let ghost ks = kinds(state.rows@);
    let start = state.selected_index as i32 + delta;
    if start < 0 || start as usize >= state.rows.len() {
        proof {
            reveal_with_fuel(scan_down, 1);
            reveal_with_fuel(scan_up, 1);
        }
        return;
    }
    let found = if delta > 0 {
        first_selectable_from(&state.rows, start as usize)
    } else {
        last_selectable_to(&state.rows, start as usize)
    };
    match found {
        Some(j) => {
            proof {
                if delta > 0 {
                    lemma_scan_down(ks, start as int);
                } else {
                    lemma_scan_up(ks, start as int);
                }
            }
            state.selected_index = j;
        },
        None => {},
    }
}

/// The row `select_nearest` picks for `idx`: `idx` if selectable, else the
/// nearest selectable row below it, else the nearest above; `None` where
/// `idx` is past the end or no row is selectable.
pub open spec fn nearest(rows: Seq<RowKind>, idx: int) -> Option<int> {
    if idx < 0 || idx >= rows.len() {
        None
    } else if selectable(rows[idx]) {
        Some(idx)
    } else {
        match scan_down(rows, idx + 1) {
            Some(j) => Some(j),
            None => scan_up(rows, idx - 1),
        }
    }
}

/// Selects the row at `idx` if it is selectable. If it falls on a
/// non-selectable row, searches downward then upward for the nearest
/// selectable row; nothing changes where there is none or `idx` is past the
/// end.
pub fn select_nearest(state: &mut SettingsState, idx: usize)
    ensures
        final(state).selected_index == (match nearest(kinds(old(state).rows@), idx as int) {
            Some(j) => j as usize,
            None => old(state).selected_index,
        }),
        final(state).rows == old(state).rows,
        final(state).editing == old(state).editing,
        final(state).edit_buffer == old(state).edit_buffer,
        final(state).hsv_component == old(state).hsv_component,
        final(state).component_list_sel == old(state).component_list_sel,
        final(state).component_list_armed == old(state).component_list_armed,
        final(state).scroll_offset == old(state).scroll_offset,
        final(state).last_inner_area == old(state).last_inner_area,
        final(state).last_visible_height == old(state).last_visible_height,
{
    let ghost ks = kinds(state.rows@);
    let len = state.rows.len();
    if idx >= len {
        return;
    }
    assert(ks[idx as int] == state.rows@[idx as int].kind);
    if !is_non_selectable(&state.rows[idx]) {
        state.selected_index = idx;
        return;
    }
    match first_selectable_from(&state.rows, idx + 1) {
        Some(i) => {
            proof {
                lemma_scan_down(ks, idx + 1);
            }
            state.selected_index = i;
            return;
        },
        None => {},
    }
    if idx == 0 {
        return;
    }
    match last_selectable_to(&state.rows, idx - 1) {
        Some(i) => {
            proof {
                lemma_scan_up(ks, idx - 1);
            }
            state.selected_index = i;
        },
        None => {},
    }
}

/// `delta` moves of one row each, in the direction of `delta`.
pub open spec fn scroll_result(rows: Seq<RowKind>, selected: usize, steps: nat, dir: i32) -> usize
    decreases steps,
{
    if steps == 0 {
        selected
    } else {
        scroll_result(rows, move_result(rows, selected, dir), (steps - 1) as nat, dir)
    }
}

/// Scrolls the settings selection by `delta` rows, one selectable row at a
/// time (used for the mouse wheel).
pub fn scroll_selection(state: &mut SettingsState, delta: i32)
    requires
        old(state).rows@.len() < i32::MAX,
        old(state).selected_index < old(state).rows@.len(),
    ensures
        final(state).selected_index == scroll_result(kinds(old(state).rows@), old(state).selected_index,
            (if delta >= 0 { delta as int } else { -(delta as int) }) as nat, if delta > 0 { 1i32 } else { -1i32 }),
        final(state).rows == old(state).rows,
        final(state).editing == old(state).editing,
        final(state).edit_buffer == old(state).edit_buffer,
        final(state).component_list_sel == old(state).component_list_sel,
        final(state).component_list_armed == old(state).component_list_armed,
{
    let steps: u32 = if delta >= 0 { delta as u32 } else if delta == i32::MIN { 2147483648u32 } else { (-delta) as u32 };
    let dir: i32 = if delta > 0 { 1 } else { -1 };
    let ghost ks = kinds(state.rows@);
    let ghost total = steps as nat;
    let mut i: u32 = 0;
    while i < steps
        invariant
            i <= steps,
            total == steps as nat,
            dir == 1 || dir == -1,
            ks == kinds(state.rows@),
            ks == kinds(old(state).rows@),
            state.rows@.len() < i32::MAX,
            state.selected_index < state.rows@.len(),
            scroll_result(ks, old(state).selected_index, total, dir)
                == scroll_result(ks, state.selected_index, (total - i) as nat, dir),
            state.rows == old(state).rows,
            state.editing == old(state).editing,
            state.edit_buffer == old(state).edit_buffer,
            state.component_list_sel == old(state).component_list_sel,
            state.component_list_armed == old(state).component_list_armed,
        decreases steps - i,
    {
        let ghost before = state.selected_index;
        move_selection(state, dir);
        proof {
            lemma_move_result_in_range(ks, before, dir);
            assert(scroll_result(ks, before, (total - i) as nat, dir)
                == scroll_result(ks, move_result(ks, before, dir), (total - i - 1) as nat, dir));
        }
        i = i + 1;
    }
    assert(delta == 0 ==> total == 0);
}

/// A move keeps the selection inside the list.
pub proof fn lemma_move_result_in_range(rows: Seq<RowKind>, selected: usize, delta: i32)
    requires
        selected < rows.len(),
        rows.len() < i32::MAX,
        delta == 1 || delta == -1,
    ensures
        move_result(rows, selected, delta) < rows.len(),
{
    let start = (selected as i32) + delta;
    lemma_scan_down(rows, start);
    lemma_scan_up(rows, start);
}

/// `c` with an ASCII lower-case letter mapped to upper case
/// (`char::to_ascii_uppercase`).
pub open spec fn ascii_upper_char(c: char) -> char {
    if 'a' <= c && c <= 'z' { ((c as u32) - 32) as char } else { c }
}

/// `char::to_ascii_uppercase`.
pub fn to_ascii_upper(c: char) -> (r: char)
    ensures
        r == ascii_upper_char(c),
{
    if 'a' <= c && c <= 'z' { ((c as u8) - 32) as char } else { c }
}

/// Converts a snake_case identifier to a human-readable label: the first
/// character in ASCII upper case, underscores as spaces.
pub open spec fn human_label(name: Seq<char>) -> Seq<char> {
    Seq::new(name.len(), |i: int| if i == 0 {
        ascii_upper_char(name[0])
    } else if name[i] == '_' {
        ' '
    } else {
        name[i]
    })
}

/// Converts a snake_case identifier to a human-readable label.
pub fn human_readable_label(name: &str) -> (r: String)
    ensures
        r@ == human_label(name@),
{
    let chars = crate::text::chars_of(name);
    let mut result = String::new();
    let mut i: usize = 0;
    while i < chars.len()
        invariant
            i <= chars.len(),
            chars@ == name@,
            result@ == human_label(name@).take(i as int),
        decreases chars.len() - i,
    {
        let c = chars[i];
        let out = if i == 0 {
            to_ascii_upper(c)
        } else if c == '_' {
            ' '
        } else {
            c
        };
        crate::text::push_char(&mut result, out);
        assert(human_label(name@).take(i + 1) =~= human_label(name@).take(i as int).push(out));
        i = i + 1;
    }
    assert(human_label(name@).take(chars.len() as int) =~= human_label(name@));
    result
}

// ── The sidebar component list ───────────────────────────────────────────

/// Every sidebar component, in the order `add` offers them.
pub open spec fn all_components() -> Seq<SidebarComponent> {
    seq![SidebarComponent::Lyrics, SidebarComponent::SimilarSongs]
}

/// The first component not in `list`, if any.
pub open spec fn first_missing(list: Seq<SidebarComponent>) -> Option<SidebarComponent> {
    if !list.contains(SidebarComponent::Lyrics) {
        Some(SidebarComponent::Lyrics)
    } else if !list.contains(SidebarComponent::SimilarSongs) {
        Some(SidebarComponent::SimilarSongs)
    } else {
        None
    }
}

/// Whether `list` holds `c`.
fn has_component(list: &Vec<SidebarComponent>, c: SidebarComponent) -> (b: bool)
    ensures
        b == list@.contains(c),
{
    let mut i: usize = 0;
    while i < list.len()
        invariant
            i <= list.len(),
            forall|j: int| 0 <= j < i ==> list@[j] != c,
        decreases list.len() - i,
    {
        if list[i] == c {
            assert(list@[i as int] == c);
            return true;
        }
        i = i + 1;
    }
    false
}

/// Swaps the component at `sel` with the one above it; returns the new
/// selection (unchanged, with the list, where there is nothing above).
pub fn move_component_up(components: &mut Vec<SidebarComponent>, sel: usize) -> (r: usize)
    ensures
        sel == 0 || sel >= old(components)@.len() ==> final(components)@ == old(components)@ && r == sel,
        !(sel == 0 || sel >= old(components)@.len()) ==> {
            &&& final(components)@ == old(components)@.update(sel as int, old(components)@[sel - 1])
                .update(sel - 1, old(components)@[sel as int])
            &&& r == sel - 1
        },
{
    if sel == 0 || sel >= components.len() {
        return sel;
    }
    let a = components[sel];
    let b = components[sel - 1];
    components.set(sel, b);
    components.set(sel - 1, a);
    sel - 1
}

/// Swaps the component at `sel` with the one below it; returns the new
/// selection (unchanged, with the list, where there is nothing below).
pub fn move_component_down(components: &mut Vec<SidebarComponent>, sel: usize) -> (r: usize)
    ensures
        old(components)@.len() < 2 || sel >= old(components)@.len() - 1 ==> final(components)@ == old(components)@ && r == sel,
        !(old(components)@.len() < 2 || sel >= old(components)@.len() - 1) ==> {
            &&& final(components)@ == old(components)@.update(sel as int, old(components)@[sel + 1])
                .update(sel + 1, old(components)@[sel as int])
            &&& r == sel + 1
        },
{
    if components.len() < 2 || sel >= components.len() - 1 {
        return sel;
    }
    let a = components[sel];
    let b = components[sel + 1];
    components.set(sel, b);
    components.set(sel + 1, a);
    sel + 1
}

/// Adds the first component not in the list; returns the new selection (the
/// added one, or the last when all are present) and whether one was added
/// (the sidebar heights then need rebalancing).
pub fn add_component(components: &mut Vec<SidebarComponent>) -> (r: (usize, bool))
    ensures
        first_missing(old(components)@) matches Some(c) ==> {
            &&& final(components)@ == old(components)@.push(c)
            &&& r == (old(components)@.len() as usize, true)
        },
        first_missing(old(components)@) is None ==> {
            &&& final(components)@ == old(components)@
            &&& r == (crate::geometry::sat_sub(old(components)@.len() as int, 1) as usize, false)
        },
{
    if !has_component(components, SidebarComponent::Lyrics) {
        components.push(SidebarComponent::Lyrics);
        return (components.len() - 1, true);
    }
    if !has_component(components, SidebarComponent::SimilarSongs) {
        components.push(SidebarComponent::SimilarSongs);
        return (components.len() - 1, true);
    }
    (components.len().saturating_sub(1), false)
}

/// Removes the component at `sel`; returns the new selection (clamped to the
/// list) and whether one was removed (the sidebar heights then need
/// rebalancing).
pub fn remove_component(components: &mut Vec<SidebarComponent>, sel: usize) -> (r: (usize, bool))
    ensures
        sel >= old(components)@.len() ==> final(components)@ == old(components)@ && r == (sel, false),
        sel < old(components)@.len() ==> {
            &&& final(components)@ == old(components)@.remove(sel as int)
            &&& r.1
            &&& r.0 == (if sel <= crate::geometry::sat_sub(final(components)@.len() as int, 1) {
                sel as int
            } else {
                crate::geometry::sat_sub(final(components)@.len() as int, 1)
            })
        },
{
    if components.len() == 0 || sel >= components.len() {
        return (sel, false);
    }
    components.remove(sel);
    let last = components.len().saturating_sub(1);
    (if sel <= last { sel } else { last }, true)
}

// ── Numbers typed in ─────────────────────────────────────────────────────

/// Whether `c` is an ASCII digit.
pub open spec fn is_digit(c: char) -> bool {
    '0' <= c && c <= '9'
}

/// The value of a string of decimal digits.
pub open spec fn digits_value(s: Seq<char>) -> int
    decreases s.len(),
{
    if s.len() == 0 {
        0
    } else {
        digits_value(s.drop_last()) * 10 + ((s.last() as u32) - 48)
    }
}

/// What `str::parse` gives for an unsigned integer type whose largest value
/// is `max`: an optional `+` then at least one digit and nothing else, with
/// a value that fits.
pub open spec fn parse_unsigned(s: Seq<char>, max: int) -> Option<int> {
    digits_parse(if s.len() > 0 && s[0] == '+' { s.drop_first() } else { s }, max)
}

/// The value of a run of digits no larger than `max`: `None` where the run
/// is empty, holds something other than a digit, or is too large.
pub open spec fn digits_parse(d: Seq<char>, max: int) -> Option<int> {
    if d.len() == 0 || !(forall|i: int| 0 <= i < d.len() ==> is_digit(#[trigger] d[i])) || digits_value(d) > max {
        None
    } else {
        Some(digits_value(d))
    }
}

/// Reads `d` as a run of decimal digits no larger than `max`.
fn parse_digits(d: &Vec<char>, max: u64) -> (r: Option<u64>)
    ensures
        r == (match digits_parse(d@, max as int) {
            Some(n) => Some(n as u64),
            None => None::<u64>,
        }),
        r matches Some(n) ==> n <= max && digits_parse(d@, max as int) == Some(n as int),
{
    if d.len() == 0 {
        return None;
    }
    let mut value: u64 = 0;
    let mut over = false;
    let mut i: usize = 0;
    while i < d.len()
        invariant
            i <= d.len(),
            forall|k: int| 0 <= k < i ==> is_digit(#[trigger] d@[k]),
            !over ==> value == digits_value(d@.take(i as int)),
            over ==> digits_value(d@.take(i as int)) > max,
            value <= max,
        decreases d.len() - i,
    {
        let c = d[i];
        if !('0' <= c && c <= '9') {
            assert(!is_digit(d@[i as int]));
            return None;
        }
        let ghost p = d@.take(i as int);
        assert(d@.take(i + 1).drop_last() =~= p);
        let digit = (c as u32 - 48) as u64;
        if !over {
            let next = (value as u128) * 10 + (digit as u128);
            if next > max as u128 {
                over = true;
            } else {
                value = next as u64;
            }
        }
        i = i + 1;
    }
    assert(d@.take(d.len() as int) =~= d@);
    if over { None } else { Some(value) }
}

/// Parses `s` as an unsigned integer no larger than `max`, as
/// `str::parse::<u64>` (or `::<usize>`, with its largest value) does.
pub fn parse_unsigned_exec(s: &str, max: u64) -> (r: Option<u64>)
    ensures
        r == (match parse_unsigned(s@, max as int) {
            Some(n) => Some(n as u64),
            None => None::<u64>,
        }),
        r matches Some(n) ==> n <= max && parse_unsigned(s@, max as int) == Some(n as int),
{
    let chars = crate::text::chars_of(s);
    let start: usize = if chars.len() > 0 && chars[0] == '+' { 1 } else { 0 };
    let rest = slice_of(&chars, start);
    assert(rest@ =~= (if s@.len() > 0 && s@[0] == '+' { s@.drop_first() } else { s@ }));
    parse_digits(&rest, max)
}

/// The characters of `v` from `start` on.
fn slice_of(v: &Vec<char>, start: usize) -> (r: Vec<char>)
    requires
        start <= v.len(),
    ensures
        r@ == v@.skip(start as int),
{
    let mut r: Vec<char> = Vec::new();
    let mut i = start;
    while i < v.len()
        invariant
            start <= i <= v.len(),
            r@ == v@.subrange(start as int, i as int),
        decreases v.len() - i,
    {
        r.push(v[i]);
        assert(v@.subrange(start as int, i + 1) =~= v@.subrange(start as int, i as int).push(v@[i as int]));
        i = i + 1;
    }
    assert(v@.subrange(start as int, v.len() as int) =~= v@.skip(start as int));
    r
}

// ── Keys ─────────────────────────────────────────────────────────────────

/// What the caller has to do to the configuration besides writing back the
/// values: what needs floating point, the configuration's own defaults, or
/// the sidebar's height bookkeeping. The values are written back first.
pub enum SettingsEffect {
    Nothing,
    /// Parse `text` as an `f32`; if it parses, store it, clamped to the
    /// field's bounds, and (when `server`) report a server change.
    SetFloat { field: FieldId, text: String, server: bool },
    /// Add `hundredths` hundredths to `component` of the color at `index`,
    /// keeping it within 0 and 1.
    StepColor { index: usize, component: HsvComponent, hundredths: i32 },
    /// Reset the floating-point field to its default.
    ResetFloat(FieldId),
    /// Reset the color at `index` to its default.
    ResetColor(usize),
    /// Reset the whole section to its defaults.
    ResetSection(Section),
    /// The component list changed length: rebalance the sidebar heights.
    RebalanceHeights,
}

/// The value of a `u64` field.
pub open spec fn get_u64(v: SettingsValues, f: FieldId) -> u64 {
    match f {
        FieldId::TickRate => v.tick_rate_ms,
        _ => 0,
    }
}

/// `v` with `u64` field `f` set to `n`.
pub open spec fn set_u64(v: SettingsValues, f: FieldId, n: u64) -> SettingsValues {
    match f {
        FieldId::TickRate => SettingsValues { tick_rate_ms: n, ..v },
        _ => v,
    }
}

/// Reads a `u64` field.
pub fn read_u64(v: &SettingsValues, f: FieldId) -> (n: u64)
    ensures
        n == get_u64(*v, f),
{
    match f {
        FieldId::TickRate => v.tick_rate_ms,
        _ => 0,
    }
}

/// Writes a `u64` field.
pub fn write_u64(v: &mut SettingsValues, f: FieldId, n: u64)
    ensures
        *final(v) == set_u64(*old(v), f, n),
{
    match f {
        FieldId::TickRate => v.tick_rate_ms = n,
        _ => {},
    }
}

/// `w` is `v` with the component list `c`.
pub open spec fn with_components(v: SettingsValues, c: Seq<SidebarComponent>, w: SettingsValues) -> bool {
    w == SettingsValues { components: w.components, ..v } && w.components@ == c
}

/// The parts of the panel a key changes: selected row, editing, buffer,
/// color component, list cursor, armed.
pub type Panel = (usize, bool, Seq<char>, HsvComponent, usize, bool);

/// The parts of the panel a key changes.
pub open spec fn panel(s: SettingsState) -> Panel {
    (s.selected_index, s.editing, s.edit_buffer@, s.hsv_component, s.component_list_sel, s.component_list_armed)
}

/// The rows and what the last draw showed are the same.
pub open spec fn same_frame(a: SettingsState, b: SettingsState) -> bool {
    &&& a.rows == b.rows
    &&& a.scroll_offset == b.scroll_offset
    &&& a.last_inner_area == b.last_inner_area
    &&& a.last_visible_height == b.last_visible_height
}

/// The panel after an edit ends: not editing, buffer cleared.
pub open spec fn edit_done(p: Panel) -> Panel {
    (p.0, false, Seq::empty(), p.3, p.4, p.5)
}

/// The panel with only the buffer changed.
pub open spec fn with_buffer(p: Panel, b: Seq<char>) -> Panel {
    (p.0, p.1, b, p.3, p.4, p.5)
}

/// The panel with the list cursor and armed flag changed.
pub open spec fn with_list(p: Panel, sel: usize, armed: bool) -> Panel {
    (p.0, p.1, p.2, p.3, sel, armed)
}

/// `n` clamped into `[lo, hi]`.
pub open spec fn clamp_nat(n: int, lo: int, hi: int) -> int {
    if n < lo { lo } else if n > hi { hi } else { n }
}

/// The color component before `c` (H before S before V, cycling).
pub open spec fn hsv_prev(c: HsvComponent) -> HsvComponent {
    match c {
        HsvComponent::H => HsvComponent::V,
        HsvComponent::S => HsvComponent::H,
        HsvComponent::V => HsvComponent::S,
    }
}

/// The color component after `c` (cycling).
pub open spec fn hsv_next(c: HsvComponent) -> HsvComponent {
    match c {
        HsvComponent::H => HsvComponent::S,
        HsvComponent::S => HsvComponent::V,
        HsvComponent::V => HsvComponent::H,
    }
}

/// The rows' bounds are usable: ranges are not empty and enumerations have
/// variants.
pub open spec fn rows_wf(rows: Seq<SettingsRow>) -> bool {
    forall|i: int| 0 <= i < rows.len() ==> match (#[trigger] rows[i]).kind {
        RowKind::UsizeField { min, max, .. } => min <= max,
        RowKind::U64Field { low, high, .. } => low <= high,
        RowKind::EnumField { variants, .. } => variants > 0,
        RowKind::EnumFieldDyn { variants, .. } => variants > 0,
        _ => true,
    }
}

/// The selected row's kind.
pub open spec fn current_kind(s: SettingsState) -> RowKind {
    s.rows@[s.selected_index as int].kind
}

/// What the key handling's arithmetic needs for a key not to overflow: moving
/// the selection stays in `i32`, stepping a dynamic enumeration stays in
/// `usize`, and moving down the component list cursor stays in `usize`.
pub open spec fn key_fits(s: SettingsState, v: SettingsValues, action: Action) -> bool {
    &&& s.wf()
    &&& rows_wf(s.rows@)
    &&& !s.editing && (action is MoveUp || action is MoveDown) ==> s.rows@.len() < i32::MAX
    &&& !s.editing && action is Select ==> (current_kind(s) matches RowKind::EnumFieldDyn { field, .. }
        ==> get_usize(v, field) < usize::MAX)
    &&& s.editing && action is MoveDown && current_kind(s) is ComponentList && !s.component_list_armed
        && v.components@.len() > 0 ==> s.component_list_sel < usize::MAX
}

/// Whether the rows' bounds are in order (see [`rows_wf`]).
fn rows_ok(rows: &Vec<SettingsRow>) -> (b: bool)
    ensures
        b == rows_wf(rows@),
{
    let mut i: usize = 0;
    while i < rows.len()
        invariant
            i <= rows.len(),
            forall|j: int| 0 <= j < i ==> match (#[trigger] rows@[j]).kind {
                RowKind::UsizeField { min, max, .. } => min <= max,
                RowKind::U64Field { low, high, .. } => low <= high,
                RowKind::EnumField { variants, .. } => variants > 0,
                RowKind::EnumFieldDyn { variants, .. } => variants > 0,
                _ => true,
            },
        decreases rows.len() - i,
    {
        let ok = match &rows[i].kind {
            RowKind::UsizeField { min, max, .. } => *min <= *max,
            RowKind::U64Field { low, high, .. } => *low <= *high,
            RowKind::EnumField { variants, .. } => *variants > 0,
            RowKind::EnumFieldDyn { variants, .. } => *variants > 0,
            _ => true,
        };
        if !ok {
            return false;
        }
        i = i + 1;
    }
    true
}

/// Whether `handle_key` can take `action` in this state (see
/// [`key_fits`]): the selection names a row, the rows' bounds are in order,
/// and the key's arithmetic stays in range.
pub fn key_fits_check(s: &SettingsState, v: &SettingsValues, action: Action) -> (b: bool)
    ensures
        b == key_fits(*s, *v, action),
{
    if s.selected_index >= s.rows.len() || !rows_ok(&s.rows) {
        return false;
    }
    if !s.editing && (action == Action::MoveUp || action == Action::MoveDown) && s.rows.len() >= 2147483647 {
        return false;
    }
    let kind = &s.rows[s.selected_index].kind;
    if !s.editing && action == Action::Select {
        if let RowKind::EnumFieldDyn { field, .. } = kind {
            if read_usize(v, *field) == usize::MAX {
                return false;
            }
        }
    }
    if s.editing && action == Action::MoveDown && !s.component_list_armed && v.components.len() > 0 {
        if let RowKind::ComponentList(_) = kind {
            if s.component_list_sel == usize::MAX {
                return false;
            }
        }
    }
    true
}

/// What a key does while a row is being edited.
pub open spec fn editing_ok(
    p: Panel,
    rows: Seq<SettingsRow>,
    v: SettingsValues,
    action: Action,
    p2: Panel,
    v2: SettingsValues,
    r: (Option<SettingsAction>, bool, SettingsEffect),
) -> bool {
    let k = rows[p.0 as int].kind;
    let b = p.2;
    let server = match row_section(k) {
        Some(sec) => sec == Section::Server,
        None => false,
    };
    &&& r.0 is None
    &&& match action {
        Action::Back => v2 == v && !r.1 && r.2 is Nothing && if k is ComponentList && p.5 {
            p2 == with_list(p, p.4, false)
        } else {
            p2 == edit_done(p)
        },
        Action::Select => match k {
            RowKind::StringField { field, .. } => text_set(v, field, b, v2) && r.1 == server && r.2 is Nothing
                && p2 == edit_done(p),
            RowKind::UsizeField { field, min, max } => r.2 is Nothing && p2 == edit_done(p)
                && match parse_unsigned(b, usize::MAX as int) {
                    Some(n) => v2 == set_usize(v, field, clamp_nat(n, min as int, max as int) as usize) && r.1 == server,
                    None => v2 == v && !r.1,
                },
            RowKind::F32Field(field) => v2 == v && !r.1 && p2 == edit_done(p)
                && (r.2 matches SettingsEffect::SetFloat { field: f, text, server: sv } && f == field && text@ == b && sv == server),
            RowKind::U64Field { field, low, high } => r.2 is Nothing && p2 == edit_done(p)
                && match parse_unsigned(b, u64::MAX as int) {
                    Some(n) => v2 == set_u64(v, field, clamp_nat(n, low as int, high as int) as u64) && r.1 == server,
                    None => v2 == v && !r.1,
                },
            RowKind::ComponentList(_) => v2 == v && !r.1 && r.2 is Nothing && if p.5 {
                p2 == (p.0, false, Seq::<char>::empty(), p.3, p.4, false)
            } else {
                p2 == with_list(p, p.4, true)
            },
            _ => v2 == v && !r.1 && r.2 is Nothing && p2 == edit_done(p),
        },
        Action::Char(c) => !r.1 && if k is HsvField || k is ComponentList {
            if k is ComponentList && c == 'a' {
                match first_missing(v.components@) {
                    Some(m) => with_components(v, v.components@.push(m), v2)
                        && p2 == with_list(p, v.components@.len() as usize, true) && r.2 is RebalanceHeights,
                    None => with_components(v, v.components@, v2)
                        && p2 == with_list(p, crate::geometry::sat_sub(v.components@.len() as int, 1) as usize, true)
                        && r.2 is Nothing,
                }
            } else {
                v2 == v && p2 == p && r.2 is Nothing
            }
        } else {
            v2 == v && p2 == with_buffer(p, b.push(c)) && r.2 is Nothing
        },
        Action::ResetField => v2 == v && !r.1 && r.2 is Nothing
            && p2 == (if k is HsvField { p } else { with_buffer(p, b.push('d')) }),
        Action::ResetSection => v2 == v && !r.1 && r.2 is Nothing
            && p2 == (if k is HsvField { p } else { with_buffer(p, b.push('D')) }),
        Action::DeleteChar => !r.1 && if k is ComponentList {
            if p.5 {
                let sel = p.4;
                if sel >= v.components@.len() {
                    with_components(v, v.components@, v2) && p2 == with_list(p, sel, false) && r.2 is Nothing
                } else {
                    let rest = v.components@.remove(sel as int);
                    let last = crate::geometry::sat_sub(rest.len() as int, 1);
                    with_components(v, rest, v2) && r.2 is RebalanceHeights
                        && p2 == with_list(p, (if sel <= last { sel as int } else { last }) as usize, false)
                }
            } else {
                v2 == v && p2 == p && r.2 is Nothing
            }
        } else {
            v2 == v && r.2 is Nothing && p2 == with_buffer(p, if b.len() > 0 { b.drop_last() } else { b })
        },
        Action::MoveLeft => v2 == v && !r.1 && r.2 is Nothing && p2 == if k is HsvField {
            (p.0, p.1, b, hsv_prev(p.3), p.4, p.5)
        } else {
            p
        },
        Action::MoveRight => v2 == v && !r.1 && r.2 is Nothing && p2 == if k is HsvField {
            (p.0, p.1, b, hsv_next(p.3), p.4, p.5)
        } else {
            p
        },
        Action::MoveUp => !r.1 && match k {
            RowKind::HsvField { index } => v2 == v && p2 == p
                && r.2 == (SettingsEffect::StepColor { index, component: p.3, hundredths: 1 }),
            RowKind::ComponentList(_) => r.2 is Nothing && {
                let sel = p.4;
                let list = v.components@;
                if p.5 {
                    if sel == 0 || sel >= list.len() {
                        with_components(v, list, v2) && p2 == p
                    } else {
                        with_components(v, list.update(sel as int, list[sel - 1]).update(sel - 1, list[sel as int]), v2)
                            && p2 == with_list(p, (sel - 1) as usize, true)
                    }
                } else {
                    v2 == v && p2 == with_list(p, if sel > 0 { (sel - 1) as usize } else if list.len() > 0 {
                        (list.len() - 1) as usize
                    } else {
                        sel
                    }, false)
                }
            },
            _ => v2 == v && p2 == p && r.2 is Nothing,
        },
        Action::MoveDown => !r.1 && match k {
            RowKind::HsvField { index } => v2 == v && p2 == p
                && r.2 == (SettingsEffect::StepColor { index, component: p.3, hundredths: -1i32 }),
            RowKind::ComponentList(_) => r.2 is Nothing && {
                let sel = p.4;
                let list = v.components@;
                if p.5 {
                    if list.len() < 2 || sel >= list.len() - 1 {
                        with_components(v, list, v2) && p2 == p
                    } else {
                        with_components(v, list.update(sel as int, list[sel + 1]).update(sel + 1, list[sel as int]), v2)
                            && p2 == with_list(p, (sel + 1) as usize, true)
                    }
                } else {
                    v2 == v && p2 == with_list(p, if list.len() > 0 && sel + 1 < list.len() {
                        (sel + 1) as usize
                    } else if list.len() > 0 {
                        0
                    } else {
                        sel
                    }, false)
                }
            },
            _ => v2 == v && p2 == p && r.2 is Nothing,
        },
        Action::PageUp => v2 == v && !r.1 && p2 == p && match k {
            RowKind::HsvField { index } => r.2 == (SettingsEffect::StepColor { index, component: p.3, hundredths: 5 }),
            _ => r.2 is Nothing,
        },
        Action::PageDown => v2 == v && !r.1 && p2 == p && match k {
            RowKind::HsvField { index } => r.2 == (SettingsEffect::StepColor { index, component: p.3, hundredths: -5i32 }),
            _ => r.2 is Nothing,
        },
        _ => v2 == v && !r.1 && r.2 is Nothing && p2 == p,
    }
}

/// What a key does while navigating the rows.
pub open spec fn navigating_ok(
    p: Panel,
    rows: Seq<SettingsRow>,
    v: SettingsValues,
    d: SettingsValues,
    action: Action,
    p2: Panel,
    v2: SettingsValues,
    r: (Option<SettingsAction>, bool, SettingsEffect),
) -> bool {
    let k = rows[p.0 as int].kind;
    let server = match row_section(k) {
        Some(sec) => sec == Section::Server,
        None => false,
    };
    let editing_with = |b: Seq<char>| (p.0, true, b, p.3, p.4, p.5);
    &&& match action {
        Action::Back => r.0 == Some(SettingsAction::ToggleSettings) && !r.1 && r.2 is Nothing && v2 == v && p2 == p,
        Action::MoveUp | Action::MoveDown => r.0 is None && !r.1 && r.2 is Nothing && v2 == v
            && p2 == (move_result(kinds(rows), p.0, if action is MoveUp { -1i32 } else { 1i32 }),
                p.1, p.2, p.3, p.4, p.5),
        Action::Select => r.0 is None && r.2 is Nothing && match k {
            RowKind::BoolField(f) => v2 == set_bool(v, f, !get_bool(v, f)) && r.1 == server && p2 == p,
            RowKind::StringField { field, .. } => v2 == v && !r.1 && p2 == editing_with(get_text(v, field)),
            RowKind::UsizeField { field, .. } => v2 == v && !r.1
                && p2 == editing_with(crate::text::decimal(get_usize(v, field) as nat)),
            RowKind::F32Field(field) => v2 == v && !r.1 && p2 == editing_with(get_text(v, field)),
            RowKind::U64Field { field, .. } => v2 == v && !r.1
                && p2 == editing_with(crate::text::decimal(get_u64(v, field) as nat)),
            RowKind::EnumField { field, variants } => {
                let cur = get_usize(v, field);
                let idx = if cur < variants { cur as int } else { 0 };
                v2 == set_usize(v, field, ((idx + 1) % (variants as int)) as usize) && r.1 == server && p2 == p
            },
            RowKind::EnumFieldDyn { field, variants } => v2 == set_usize(v, field, ((get_usize(v, field) + 1) % (variants as int)) as usize)
                && r.1 == server && p2 == p,
            RowKind::ComponentList(_) => v2 == v && !r.1
                && p2 == (p.0, true, Seq::<char>::empty(), p.3, 0usize, p.5),
            RowKind::HsvField { .. } => v2 == v && !r.1
                && p2 == (p.0, true, p.2, HsvComponent::H, p.4, p.5),
            _ => v2 == v && !r.1 && p2 == p,
        },
        Action::ResetField => r.0 is None && p2 == p && match k {
            RowKind::BoolField(f) => v2 == set_bool(v, f, get_bool(d, f)) && r.1 == server && r.2 is Nothing,
            RowKind::StringField { field, .. } => text_set(v, field, get_text(d, field), v2) && r.1 == server && r.2 is Nothing,
            RowKind::UsizeField { field, .. } => v2 == set_usize(v, field, get_usize(d, field)) && r.1 == server && r.2 is Nothing,
            RowKind::F32Field(field) => v2 == v && r.1 == server && r.2 == SettingsEffect::ResetFloat(field),
            RowKind::U64Field { field, .. } => v2 == set_u64(v, field, get_u64(d, field)) && r.1 == server && r.2 is Nothing,
            RowKind::EnumField { field, .. } => v2 == set_usize(v, field, get_usize(d, field)) && r.1 == server && r.2 is Nothing,
            RowKind::EnumFieldDyn { field, .. } => v2 == set_usize(v, field, get_usize(d, field)) && r.1 == server && r.2 is Nothing,
            RowKind::ComponentList(_) => with_components(v, d.components@, v2) && !r.1 && r.2 is Nothing,
            RowKind::HsvField { index } => v2 == v && !r.1 && r.2 == SettingsEffect::ResetColor(index),
            _ => v2 == v && !r.1 && r.2 is Nothing,
        },
        Action::ResetSection => r.0 is None && v2 == v && p2 == p && match row_section(k) {
            Some(sec) => r.2 == SettingsEffect::ResetSection(sec) && r.1 == (sec == Section::Server),
            None => r.2 is Nothing && !r.1,
        },
        _ => r.0 is None && !r.1 && r.2 is Nothing && v2 == v && p2 == p,
    }
}

/// The decimal text of `n`.
fn decimal_string(n: u64) -> (r: String)
    ensures
        r@ == crate::text::decimal(n as nat),
{
    let mut r = String::new();
    crate::text::push_decimal(&mut r, n);
    assert(r@ =~= crate::text::decimal(n as nat));
    r
}

/// A key while a row is being edited.
fn handle_edit_key(state: &mut SettingsState, values: &mut SettingsValues, action: Action)
    -> (r: (Option<SettingsAction>, bool, SettingsEffect))
    requires
        old(state).editing,
        key_fits(*old(state), *old(values), action),
    ensures
        same_frame(*old(state), *final(state)),
        editing_ok(panel(*old(state)), old(state).rows@, *old(values), action, panel(*final(state)), *final(values), r),
{
    let kind = state.rows[state.selected_index].kind;
    match action {
        Action::Back => {
            if matches!(kind, RowKind::ComponentList(_)) && state.component_list_armed {
                state.component_list_armed = false;
                return (None, false, SettingsEffect::Nothing);
            }
            state.editing = false;
            state.edit_buffer = String::new();
            (None, false, SettingsEffect::Nothing)
        },
        Action::Select => {
            let mut server_changed = false;
            let mut effect = SettingsEffect::Nothing;
            match kind {
                RowKind::StringField { field, .. } => {
                    write_text(values, field, state.edit_buffer.clone());
                    server_changed = section_of(field) == Section::Server;
                },
                RowKind::UsizeField { field, min, max } => {
                    let limit = usize::MAX as u64;
                    assert(limit as int == usize::MAX as int);
                    match parse_unsigned_exec(state.edit_buffer.as_str(), limit) {
                        Some(n) => {
                            assert(n <= limit);
                            let n = n as usize;
                            let c = if n < min { min } else if n > max { max } else { n };
                            write_usize(values, field, c);
                            server_changed = section_of(field) == Section::Server;
                        },
                        None => {},
                    }
                },
                RowKind::F32Field(field) => {
                    effect = SettingsEffect::SetFloat {
                        field,
                        text: state.edit_buffer.clone(),
                        server: section_of(field) == Section::Server,
                    };
                },
                RowKind::U64Field { field, low, high } => {
                    match parse_unsigned_exec(state.edit_buffer.as_str(), u64::MAX) {
                        Some(n) => {
                            let c = if n < low { low } else if n > high { high } else { n };
                            write_u64(values, field, c);
                            server_changed = section_of(field) == Section::Server;
                        },
                        None => {},
                    }
                },
                RowKind::ComponentList(_) => {
                    if state.component_list_armed {
                        state.editing = false;
                        state.edit_buffer = String::new();
                        state.component_list_armed = false;
                        return (None, false, SettingsEffect::Nothing);
                    }
                    state.component_list_armed = true;
                    return (None, false, SettingsEffect::Nothing);
                },
                _ => {},
            }
            state.editing = false;
            state.edit_buffer = String::new();
            (None, server_changed, effect)
        },
        Action::Char(c) => {
            match kind {
                RowKind::HsvField { .. } => {},
                RowKind::ComponentList(_) => {
                    if c == 'a' {
                        let (sel, added) = add_component(&mut values.components);
                        state.component_list_sel = sel;
                        state.component_list_armed = true;
                        if added {
                            return (None, false, SettingsEffect::RebalanceHeights);
                        }
                    }
                },
                _ => {
                    crate::text::push_char(&mut state.edit_buffer, c);
                },
            }
            (None, false, SettingsEffect::Nothing)
        },
        Action::ResetField => {
            if !matches!(kind, RowKind::HsvField { .. }) {
                crate::text::push_char(&mut state.edit_buffer, 'd');
            }
            (None, false, SettingsEffect::Nothing)
        },
        Action::ResetSection => {
            if !matches!(kind, RowKind::HsvField { .. }) {
                crate::text::push_char(&mut state.edit_buffer, 'D');
            }
            (None, false, SettingsEffect::Nothing)
        },
        Action::DeleteChar => {
            match kind {
                RowKind::ComponentList(_) => {
                    if state.component_list_armed {
                        let (sel, removed) = remove_component(&mut values.components, state.component_list_sel);
                        state.component_list_sel = sel;
                        state.component_list_armed = false;
                        if removed {
                            return (None, false, SettingsEffect::RebalanceHeights);
                        }
                    }
                },
                _ => {
                    state.edit_buffer = crate::text::without_last_char(&state.edit_buffer);
                },
            }
            (None, false, SettingsEffect::Nothing)
        },
        Action::MoveLeft => {
            if matches!(kind, RowKind::HsvField { .. }) {
                state.hsv_component = match state.hsv_component {
                    HsvComponent::H => HsvComponent::V,
                    HsvComponent::S => HsvComponent::H,
                    HsvComponent::V => HsvComponent::S,
                };
            }
            (None, false, SettingsEffect::Nothing)
        },
        Action::MoveRight => {
            if matches!(kind, RowKind::HsvField { .. }) {
                state.hsv_component = match state.hsv_component {
                    HsvComponent::H => HsvComponent::S,
                    HsvComponent::S => HsvComponent::V,
                    HsvComponent::V => HsvComponent::H,
                };
            }
            (None, false, SettingsEffect::Nothing)
        },
        Action::MoveUp => {
            match kind {
                RowKind::HsvField { index } => {
                    return (None, false, SettingsEffect::StepColor {
                        index,
                        component: state.hsv_component,
                        hundredths: 1,
                    });
                },
                RowKind::ComponentList(_) => {
                    if state.component_list_armed {
                        state.component_list_sel = move_component_up(&mut values.components, state.component_list_sel);
                    } else {
                        let len = values.components.len();
                        if state.component_list_sel > 0 {
                            state.component_list_sel = state.component_list_sel - 1;
                        } else if len > 0 {
                            state.component_list_sel = len - 1;
                        }
                    }
                },
                _ => {},
            }
            (None, false, SettingsEffect::Nothing)
        },
        Action::MoveDown => {
            match kind {
                RowKind::HsvField { index } => {
                    return (None, false, SettingsEffect::StepColor {
                        index,
                        component: state.hsv_component,
                        hundredths: -1,
                    });
                },
                RowKind::ComponentList(_) => {
                    if state.component_list_armed {
                        state.component_list_sel = move_component_down(&mut values.components, state.component_list_sel);
                    } else {
                        let len = values.components.len();
                        if len > 0 && state.component_list_sel + 1 < len {
                            state.component_list_sel = state.component_list_sel + 1;
                        } else if len > 0 {
                            state.component_list_sel = 0;
                        }
                    }
                },
                _ => {},
            }
            (None, false, SettingsEffect::Nothing)
        },
        Action::PageUp => {
            match kind {
                RowKind::HsvField { index } => (None, false, SettingsEffect::StepColor {
                    index,
                    component: state.hsv_component,
                    hundredths: 5,
                }),
                _ => (None, false, SettingsEffect::Nothing),
            }
        },
        Action::PageDown => {
            match kind {
                RowKind::HsvField { index } => (None, false, SettingsEffect::StepColor {
                    index,
                    component: state.hsv_component,
                    hundredths: -5,
                }),
                _ => (None, false, SettingsEffect::Nothing),
            }
        },
        _ => (None, false, SettingsEffect::Nothing),
    }
}

/// The section a row belongs to, if it edits something.
fn section_of_row(kind: RowKind) -> (r: Option<Section>)
    ensures
        r == row_section(kind),
{
    match kind {
        RowKind::SectionSpacer | RowKind::SectionHeader => None,
        RowKind::BoolField(f) => Some(section_of(f)),
        RowKind::StringField { field, .. } => Some(section_of(field)),
        RowKind::UsizeField { field, .. } => Some(section_of(field)),
        RowKind::F32Field(f) => Some(section_of(f)),
        RowKind::U64Field { field, .. } => Some(section_of(field)),
        RowKind::EnumField { field, .. } => Some(section_of(field)),
        RowKind::EnumFieldDyn { field, .. } => Some(section_of(field)),
        RowKind::ComponentList(f) => Some(section_of(f)),
        RowKind::HsvField { .. } => Some(Section::Colors),
    }
}

/// A copy of a component list.
fn copy_components(list: &Vec<SidebarComponent>) -> (r: Vec<SidebarComponent>)
    ensures
        r@ == list@,
{
    let mut r: Vec<SidebarComponent> = Vec::new();
    let mut i: usize = 0;
    while i < list.len()
        invariant
            i <= list.len(),
            r@ == list@.take(i as int),
        decreases list.len() - i,
    {
        r.push(list[i]);
        assert(list@.take(i + 1) =~= list@.take(i as int).push(list@[i as int]));
        i = i + 1;
    }
    assert(list@.take(list.len() as int) =~= list@);
    r
}

/// A key while navigating the rows.
fn handle_nav_key(state: &mut SettingsState, values: &mut SettingsValues, defaults: &SettingsValues, action: Action)
    -> (r: (Option<SettingsAction>, bool, SettingsEffect))
    requires
        !old(state).editing,
        key_fits(*old(state), *old(values), action),
    ensures
        same_frame(*old(state), *final(state)),
        navigating_ok(panel(*old(state)), old(state).rows@, *old(values), *defaults, action, panel(*final(state)),
            *final(values), r),
{
    let kind = state.rows[state.selected_index].kind;
    match action {
        Action::Back => (Some(SettingsAction::ToggleSettings), false, SettingsEffect::Nothing),
        Action::MoveUp => {
            move_selection(state, -1);
            (None, false, SettingsEffect::Nothing)
        },
        Action::MoveDown => {
            move_selection(state, 1);
            (None, false, SettingsEffect::Nothing)
        },
        Action::Select => {
            let mut server_changed = false;
            match kind {
                RowKind::BoolField(f) => {
                    let b = read_bool(values, f);
                    write_bool(values, f, !b);
                    server_changed = section_of(f) == Section::Server;
                },
                RowKind::StringField { field, .. } => {
                    state.editing = true;
                    state.edit_buffer = read_text(values, field);
                },
                RowKind::UsizeField { field, .. } => {
                    state.editing = true;
                    state.edit_buffer = decimal_string(read_usize(values, field) as u64);
                },
                RowKind::F32Field(field) => {
                    state.editing = true;
                    state.edit_buffer = read_text(values, field);
                },
                RowKind::U64Field { field, .. } => {
                    state.editing = true;
                    state.edit_buffer = decimal_string(read_u64(values, field));
                },
                RowKind::EnumField { field, variants } => {
                    let cur = read_usize(values, field);
                    let idx = if cur < variants { cur } else { 0 };
                    write_usize(values, field, (idx + 1) % variants);
                    server_changed = section_of(field) == Section::Server;
                },
                RowKind::EnumFieldDyn { field, variants } => {
                    let cur = read_usize(values, field);
                    write_usize(values, field, (cur + 1) % variants);
                    server_changed = section_of(field) == Section::Server;
                },
                RowKind::ComponentList(_) => {
                    state.editing = true;
                    state.edit_buffer = String::new();
                    state.component_list_sel = 0;
                },
                RowKind::HsvField { .. } => {
                    state.editing = true;
                    state.hsv_component = HsvComponent::H;
                },
                _ => {},
            }
            (None, server_changed, SettingsEffect::Nothing)
        },
        Action::ResetField => {
            match kind {
                RowKind::BoolField(f) => {
                    write_bool(values, f, read_bool(defaults, f));
                    (None, section_of(f) == Section::Server, SettingsEffect::Nothing)
                },
                RowKind::StringField { field, .. } => {
                    write_text(values, field, read_text(defaults, field));
                    (None, section_of(field) == Section::Server, SettingsEffect::Nothing)
                },
                RowKind::UsizeField { field, .. } | RowKind::EnumField { field, .. }
                | RowKind::EnumFieldDyn { field, .. } => {
                    write_usize(values, field, read_usize(defaults, field));
                    (None, section_of(field) == Section::Server, SettingsEffect::Nothing)
                },
                RowKind::F32Field(field) => (None, section_of(field) == Section::Server, SettingsEffect::ResetFloat(field)),
                RowKind::U64Field { field, .. } => {
                    write_u64(values, field, read_u64(defaults, field));
                    (None, section_of(field) == Section::Server, SettingsEffect::Nothing)
                },
                RowKind::ComponentList(_) => {
                    values.components = copy_components(&defaults.components);
                    (None, false, SettingsEffect::Nothing)
                },
                RowKind::HsvField { index } => (None, false, SettingsEffect::ResetColor(index)),
                _ => (None, false, SettingsEffect::Nothing),
            }
        },
        Action::ResetSection => {
            match section_of_row(kind) {
                Some(sec) => (None, sec == Section::Server, SettingsEffect::ResetSection(sec)),
                None => (None, false, SettingsEffect::Nothing),
            }
        },
        _ => (None, false, SettingsEffect::Nothing),
    }
}

/// Handles a key in the settings panel: returns an action when the caller
/// should close the panel, whether the server settings changed (the library
/// then reloads), and what else the caller must do to the configuration.
/// While a row is edited the keys edit it; otherwise they move between rows,
/// start editing, toggle or cycle values, and reset fields or sections.
pub fn handle_key(state: &mut SettingsState, values: &mut SettingsValues, defaults: &SettingsValues, action: Action)
    -> (r: (Option<SettingsAction>, bool, SettingsEffect))
    requires
        key_fits(*old(state), *old(values), action),
    ensures
        same_frame(*old(state), *final(state)),
        old(state).editing ==> editing_ok(panel(*old(state)), old(state).rows@, *old(values), action,
            panel(*final(state)), *final(values), r),
        !old(state).editing ==> navigating_ok(panel(*old(state)), old(state).rows@, *old(values), *defaults,
            action, panel(*final(state)), *final(values), r),
{
    if state.editing {
        handle_edit_key(state, values, action)
    } else {
        handle_nav_key(state, values, defaults, action)
    }
}

/// The row a click at terminal row `y` lands on, as drawn last: `None`
/// without a drawn area, outside it, or past the last row.
pub open spec fn clicked_row(s: SettingsState, y: u16) -> Option<int> {
    match s.last_inner_area {
        None => None,
        Some(inner) => if y < inner.y || y >= inner.y + inner.height {
            None
        } else {
            let idx = s.scroll_offset + (y - inner.y);
            if idx >= s.rows@.len() { None } else { Some(idx) }
        },
    }
}

/// A click on an item line of the component list being edited (below its
/// header line) is ignored.
pub open spec fn click_ignored(s: SettingsState, y: u16, idx: int) -> bool {
    s.editing && current_kind(s) is ComponentList && idx == s.selected_index
        && (y - s.last_inner_area.unwrap().y) != crate::geometry::sat_sub(s.selected_index as int, s.scroll_offset as int)
}

/// The panel a click leaves before it activates the clicked row: an edit of
/// another row is cancelled, and the clicked row (or the nearest selectable
/// one) is selected.
pub open spec fn click_panel(s: SettingsState, idx: int) -> Panel {
    let cancel = s.editing && idx != s.selected_index;
    let sel = match nearest(kinds(s.rows@), idx) {
        Some(j) => j as usize,
        None => s.selected_index,
    };
    (sel, if cancel { false } else { s.editing }, if cancel { Seq::empty() } else { s.edit_buffer@ },
        s.hsv_component, s.component_list_sel, s.component_list_armed)
}

/// A click can be handled without overflow or a failing index.
pub open spec fn click_fits(s: SettingsState, v: SettingsValues) -> bool {
    &&& s.wf()
    &&& rows_wf(s.rows@)
    &&& s.last_inner_area matches Some(inner) ==> inner.wf() && s.scroll_offset + inner.height <= usize::MAX
    &&& forall|i: int| 0 <= i < s.rows@.len() ==> ((#[trigger] s.rows@[i]).kind matches RowKind::EnumFieldDyn { field, .. }
        ==> get_usize(v, field) < usize::MAX)
}

/// Handles a mouse click at terminal row `y` in the settings panel: selects
/// the clicked row (or the nearest selectable one) and activates it as Enter
/// does. Returns whether the server settings changed and what else the
/// caller must do. Clicks outside the drawn list, past the last row, or on an
/// item line of the component list being edited do nothing.
pub fn handle_mouse_click(state: &mut SettingsState, values: &mut SettingsValues, defaults: &SettingsValues, y: u16)
    -> (r: (bool, SettingsEffect))
    requires
        click_fits(*old(state), *old(values)),
    ensures
        same_frame(*old(state), *final(state)),
        (clicked_row(*old(state), y) is None || click_ignored(*old(state), y, clicked_row(*old(state), y).unwrap())) ==> {
            &&& panel(*final(state)) == panel(*old(state))
            &&& *final(values) == *old(values)
            &&& !r.0
            &&& r.1 is Nothing
        },
        clicked_row(*old(state), y) is Some && !click_ignored(*old(state), y, clicked_row(*old(state), y).unwrap()) ==> {
            let p1 = click_panel(*old(state), clicked_row(*old(state), y).unwrap());
            if p1.1 {
                editing_ok(p1, old(state).rows@, *old(values), Action::Select, panel(*final(state)), *final(values), (None, r.0, r.1))
            } else {
                navigating_ok(p1, old(state).rows@, *old(values), *defaults, Action::Select, panel(*final(state)),
                    *final(values), (None, r.0, r.1))
            }
        },
{
    let inner = match state.last_inner_area {
        Some(a) => a,
        None => {
            return (false, SettingsEffect::Nothing);
        },
    };
    if y < inner.y || y >= inner.y + inner.height {
        return (false, SettingsEffect::Nothing);
    }
    let row_in_list = (y - inner.y) as usize;
    let clicked_index = state.scroll_offset + row_in_list;
    if clicked_index >= state.rows.len() {
        return (false, SettingsEffect::Nothing);
    }
    if state.editing && matches!(state.rows[state.selected_index].kind, RowKind::ComponentList(_))
        && clicked_index == state.selected_index {
        let header_line = state.selected_index.saturating_sub(state.scroll_offset);
        if row_in_list != header_line {
            return (false, SettingsEffect::Nothing);
        }
    }
    if state.editing && clicked_index != state.selected_index {
        state.editing = false;
        state.edit_buffer = String::new();
    }
    select_nearest(state, clicked_index);
    proof {
        let ks = kinds(state.rows@);
        lemma_scan_down(ks, clicked_index + 1);
        lemma_scan_up(ks, clicked_index - 1);
        assert(ks[clicked_index as int] == state.rows@[clicked_index as int].kind);
    }
    let (_, changed, effect) = handle_key(state, values, defaults, Action::Select);
    (changed, effect)
}

// ── What every key keeps ─────────────────────────────────────────────────

/// The selection stays on a selectable row: whatever key is pressed, in
/// whatever mode, a selection on a selectable row moves only to another
/// selectable row of the list.
pub proof fn lemma_selection_stays_selectable(
    p: Panel,
    rows: Seq<SettingsRow>,
    v: SettingsValues,
    d: SettingsValues,
    action: Action,
    p2: Panel,
    v2: SettingsValues,
    r: (Option<SettingsAction>, bool, SettingsEffect),
)
    requires
        p.0 < rows.len(),
        selectable(rows[p.0 as int].kind),
        rows.len() < i32::MAX,
        if p.1 { editing_ok(p, rows, v, action, p2, v2, r) } else { navigating_ok(p, rows, v, d, action, p2, v2, r) },
    ensures
        p2.0 < rows.len(),
        selectable(rows[p2.0 as int].kind),
{
    let ks = kinds(rows);
    assert(ks[p.0 as int] == rows[p.0 as int].kind);
    if !p.1 && (action is MoveUp || action is MoveDown) {
        let delta: i32 = if action is MoveUp { -1i32 } else { 1i32 };
        let start = (p.0 as i32) + delta;
        lemma_scan_down(ks, start);
        lemma_scan_up(ks, start);
        match moved_to(ks, p.0, delta) {
            Some(j) => {
                assert(ks[j] == rows[j].kind);
            },
            None => {},
        }
    }
}

/// No component occurs twice.
pub open spec fn distinct(list: Seq<SidebarComponent>) -> bool {
    forall|i: int, j: int| 0 <= i < j < list.len() ==> list[i] != list[j]
}

/// The sidebar component list never holds a component twice: adding only
/// adds a missing one, reordering swaps two, removing removes one, and a
/// reset restores the (duplicate-free) default.
pub proof fn lemma_components_stay_distinct(
    p: Panel,
    rows: Seq<SettingsRow>,
    v: SettingsValues,
    d: SettingsValues,
    action: Action,
    p2: Panel,
    v2: SettingsValues,
    r: (Option<SettingsAction>, bool, SettingsEffect),
)
    requires
        p.0 < rows.len(),
        distinct(v.components@),
        distinct(d.components@),
        if p.1 { editing_ok(p, rows, v, action, p2, v2, r) } else { navigating_ok(p, rows, v, d, action, p2, v2, r) },
    ensures
        distinct(v2.components@),
{
    let l = v.components@;
    let k = rows[p.0 as int].kind;
    if p.1 {
        match action {
            Action::Char(c) => {
                if k is ComponentList && c == 'a' {
                    match first_missing(l) {
                        Some(m) => {
                            let l2 = l.push(m);
                            assert(!l.contains(m));
                            assert forall|i: int, j: int| 0 <= i < j < l2.len() implies l2[i] != l2[j] by {
                                if j == l.len() {
                                    assert(l2[i] == l[i]);
                                    if l[i] == m {
                                        assert(l.contains(m));
                                    }
                                }
                            }
                        },
                        None => {},
                    }
                }
            },
            Action::DeleteChar => {
                if k is ComponentList && p.5 && p.4 < l.len() {
                    let l2 = l.remove(p.4 as int);
                    assert forall|i: int, j: int| 0 <= i < j < l2.len() implies l2[i] != l2[j] by {
                        let a = if i < p.4 { i } else { i + 1 };
                        let b = if j < p.4 { j } else { j + 1 };
                        assert(l2[i] == l[a]);
                        assert(l2[j] == l[b]);
                    }
                }
            },
            Action::MoveUp => {
                let sel = p.4;
                if k is ComponentList && p.5 && !(sel == 0 || sel >= l.len()) {
                    let l2 = l.update(sel as int, l[sel - 1]).update(sel - 1, l[sel as int]);
                    assert forall|i: int, j: int| 0 <= i < j < l2.len() implies l2[i] != l2[j] by {
                        let a = if i == sel { sel - 1 } else if i == sel - 1 { sel as int } else { i };
                        let b = if j == sel { sel - 1 } else if j == sel - 1 { sel as int } else { j };
                        assert(l2[i] == l[a]);
                        assert(l2[j] == l[b]);
                    }
                }
            },
            Action::MoveDown => {
                let sel = p.4;
                if k is ComponentList && p.5 && !(l.len() < 2 || sel >= l.len() - 1) {
                    let l2 = l.update(sel as int, l[sel + 1]).update(sel + 1, l[sel as int]);
                    assert forall|i: int, j: int| 0 <= i < j < l2.len() implies l2[i] != l2[j] by {
                        let a = if i == sel { sel + 1 } else if i == sel + 1 { sel as int } else { i };
                        let b = if j == sel { sel + 1 } else if j == sel + 1 { sel as int } else { j };
                        assert(l2[i] == l[a]);
                        assert(l2[j] == l[b]);
                    }
                }
            },
            _ => {},
        }
    }
}

/// Esc never changes a configured value: it closes the panel, cancels an
/// edit, or disarms the component being moved.
pub proof fn lemma_back_keeps_values(
    p: Panel,
    rows: Seq<SettingsRow>,
    v: SettingsValues,
    d: SettingsValues,
    p2: Panel,
    v2: SettingsValues,
    r: (Option<SettingsAction>, bool, SettingsEffect),
)
    requires
        if p.1 { editing_ok(p, rows, v, Action::Back, p2, v2, r) } else { navigating_ok(p, rows, v, d, Action::Back, p2, v2, r) },
    ensures
        v2 == v,
        !r.1,
        r.2 is Nothing,
        p.1 ==> r.0 is None && p2.0 == p.0,
        !p.1 ==> r.0 == Some(SettingsAction::ToggleSettings) && p2 == p,
{
}

// ── Drawing the rows ─────────────────────────────────────────────────────

/// How a piece of a settings row is colored: the highlight (selected or
/// edited), plain text, dimmed (the changed-from-default marker), the
/// section-header color, the color swatch of a color row, or unstyled.
#[derive(Debug, Clone, Copy, PartialEq, Eq, Structural)]
pub enum Tone {
    Highlight,
    Text,
    Dim,
    Album,
    Swatch,
    Raw,
}

/// A styled piece of a row.
pub struct Segment {
    pub text: String,
    pub tone: Tone,
    pub bold: bool,
    pub underlined: bool,
}

/// What a row needs that only floating point gives: whether a
/// floating-point value is at its default, the name of the album art style,
/// and for a color row its three components (two decimals each) and
/// whether it is at its default.
pub struct RowExtras {
    pub float_at_default: bool,
    pub enum_name: String,
    pub color_h: String,
    pub color_s: String,
    pub color_v: String,
    pub color_at_default: bool,
}

/// A segment as a value: text, tone, bold, underlined.
pub type Seg = (Seq<char>, Tone, bool, bool);

/// The view of a line of segments.
pub open spec fn line_view(line: Seq<Segment>) -> Seq<Seg> {
    line.map_values(|g: Segment| (g.text@, g.tone, g.bold, g.underlined))
}

/// The view of the lines of a row.
pub open spec fn lines_view(lines: Seq<Vec<Segment>>) -> Seq<Seq<Seg>> {
    lines.map_values(|l: Vec<Segment>| line_view(l@))
}

/// A plain segment.
pub open spec fn plain(text: Seq<char>, tone: Tone) -> Seg {
    (text, tone, false, false)
}

/// The changed-from-default marker, when the value is not its default.
pub open spec fn marker(is_default: bool) -> Seq<Seg> {
    if is_default { Seq::empty() } else { seq![plain(" *"@, Tone::Dim)] }
}

/// The bytes `c` takes in UTF-8.
pub open spec fn utf8_width(c: char) -> int {
    if (c as u32) < 0x80 { 1 } else if (c as u32) < 0x800 { 2 } else if (c as u32) < 0x10000 { 3 } else { 4 }
}

/// The length of `s` in UTF-8 bytes, as `String::len` counts it.
pub open spec fn utf8_len(s: Seq<char>) -> int
    decreases s.len(),
{
    if s.len() == 0 { 0 } else { utf8_len(s.drop_last()) + utf8_width(s.last()) }
}

/// The name shown for a sidebar component.
pub open spec fn component_name(c: SidebarComponent) -> Seq<char> {
    match c {
        SidebarComponent::Lyrics => "lyrics"@,
        SidebarComponent::SimilarSongs => "similar songs"@,
    }
}

/// The component names joined by ", ".
pub open spec fn joined_names(list: Seq<SidebarComponent>) -> Seq<char>
    decreases list.len(),
{
    if list.len() == 0 {
        Seq::empty()
    } else if list.len() == 1 {
        component_name(list[0])
    } else {
        joined_names(list.drop_last()) + ", "@ + component_name(list.last())
    }
}

/// The line of item `i` of the component list being edited.
pub open spec fn item_line(c: SidebarComponent, is_sel: bool, armed: bool) -> Seq<Seg> {
    let mark = if is_sel && armed { ">>"@ } else if is_sel { "> "@ } else { "  "@ };
    seq![("  "@ + mark + " "@ + component_name(c), if is_sel { Tone::Highlight } else { Tone::Text }, is_sel, false)]
}

/// The H, S and V pieces of a color row being edited.
pub open spec fn hsv_pieces(active: HsvComponent, h: Seq<char>, s: Seq<char>, v: Seq<char>) -> Seq<Seg> {
    let piece = |name: Seq<char>, text: Seq<char>, on: bool|
        (name + text, if on { Tone::Highlight } else { Tone::Text }, on, on);
    seq![
        piece("H:"@, h, active == HsvComponent::H),
        plain(" "@, Tone::Raw),
        piece("S:"@, s, active == HsvComponent::S),
        plain(" "@, Tone::Raw),
        piece("V:"@, v, active == HsvComponent::V)
    ]
}

/// The lines of a settings row: a header between rules, a check box for a
/// boolean, `label: value` for the others (the typed text and a cursor while
/// the row is edited, stars for a password), the component list as one line
/// or, while edited, one line per component with the cursor and arming
/// marks, and a color as a swatch with its components; each followed by a
/// dimmed star when its value is not the default.
pub open spec fn row_lines(
    kind: RowKind,
    label: Seq<char>,
    v: SettingsValues,
    d: SettingsValues,
    is_selected: bool,
    editing: bool,
    buffer: Seq<char>,
    list_sel: usize,
    armed: bool,
    hsv: HsvComponent,
    float_at_default: bool,
    enum_name: Seq<char>,
    ch: Seq<char>,
    cs: Seq<char>,
    cv: Seq<char>,
    color_at_default: bool,
) -> Seq<Seq<Seg>> {
    let sel_tone = if is_selected { Tone::Highlight } else { Tone::Text };
    let here = is_selected && editing;
    let cursor = if here { seq![plain("_"@, Tone::Highlight)] } else { Seq::empty() };
    match kind {
        RowKind::SectionSpacer => seq![seq![plain(Seq::empty(), Tone::Raw)]],
        RowKind::SectionHeader => seq![seq![("\u{2500}\u{2500} "@ + label + " \u{2500}\u{2500}"@, Tone::Album, true, false)]],
        RowKind::BoolField(f) => {
            let value = get_bool(v, f);
            seq![seq![plain((if value { "[x]"@ } else { "[ ]"@ }) + " "@ + label, sel_tone)]
                + marker(value == get_bool(d, f))]
        },
        RowKind::StringField { field, password } => {
            let value = get_text(v, field);
            let shown = if here { buffer } else if password { Seq::new(utf8_len(value) as nat, |i: int| '*') } else { value };
            seq![seq![plain(label + ": "@, sel_tone), plain(shown, if here { Tone::Highlight } else { Tone::Text })]
                + cursor + marker(value == get_text(d, field))]
        },
        RowKind::UsizeField { field, .. } => {
            let value = get_usize(v, field);
            let shown = if here { buffer } else { crate::text::decimal(value as nat) };
            seq![seq![plain(label + ": "@, sel_tone), plain(shown, Tone::Text)] + cursor
                + marker(value == get_usize(d, field))]
        },
        RowKind::F32Field(field) => {
            let shown = if here { buffer } else { get_text(v, field) };
            seq![seq![plain(label + ": "@, sel_tone), plain(shown, Tone::Text)] + cursor + marker(float_at_default)]
        },
        RowKind::U64Field { field, .. } => {
            let value = get_u64(v, field);
            let shown = if here { buffer } else { crate::text::decimal(value as nat) };
            seq![seq![plain(label + ": "@, sel_tone), plain(shown, Tone::Text)] + cursor
                + marker(value == get_u64(d, field))]
        },
        RowKind::EnumField { field, .. } => seq![seq![plain(label + ": "@ + enum_name, sel_tone)]
            + marker(get_usize(v, field) == get_usize(d, field))],
        RowKind::EnumFieldDyn { field, .. } => {
            let idx = get_usize(v, field);
            let name = if idx == 0 { "left"@ } else if idx == 1 { "right"@ } else { "?"@ };
            seq![seq![plain(label + ": "@ + name, sel_tone)] + marker(idx == get_usize(d, field))]
        },
        RowKind::ComponentList(_) => {
            let list = v.components@;
            let is_default = list == d.components@;
            if here {
                seq![seq![plain(label + ":"@, sel_tone)] + marker(is_default)]
                    + Seq::new(list.len(), |i: int| item_line(list[i], i == list_sel, armed))
            } else {
                seq![seq![plain(label + ":"@, sel_tone), plain(" "@ + joined_names(list), sel_tone)] + marker(is_default)]
            }
        },
        RowKind::HsvField { .. } => {
            let name = human_label(label);
            let head = seq![plain("\u{2588}\u{2588}"@, Tone::Swatch), plain(" "@, Tone::Raw)];
            let body = if here {
                seq![plain(name + ": "@, Tone::Highlight)] + hsv_pieces(hsv, ch, cs, cv)
            } else {
                seq![plain(name + ": H:"@ + ch + " S:"@ + cs + " V:"@ + cv, sel_tone)]
            };
            seq![head + body + marker(color_at_default)]
        },
    }
}

/// A segment.
fn mk_seg(text: String, tone: Tone, bold: bool, underlined: bool) -> (g: Segment)
    ensures
        g.text@ == text@,
        g.tone == tone,
        g.bold == bold,
        g.underlined == underlined,
{
    Segment { text, tone, bold, underlined }
}

/// Appends a segment to a line.
fn push_seg(line: &mut Vec<Segment>, text: String, tone: Tone, bold: bool, underlined: bool)
    ensures
        line_view(final(line)@) == line_view(old(line)@).push((text@, tone, bold, underlined)),
{
    let ghost before = line_view(line@);
    line.push(mk_seg(text, tone, bold, underlined));
    assert(line_view(line@) =~= before.push((text@, tone, bold, underlined)));
}

/// Appends the changed-from-default marker when the value is not the
/// default.
fn push_marker(line: &mut Vec<Segment>, is_default: bool)
    ensures
        line_view(final(line)@) == line_view(old(line)@) + marker(is_default),
{
    if !is_default {
        push_seg(line, " *".to_owned(), Tone::Dim, false, false);
    } else {
        assert(line_view(line@) =~= line_view(line@) + marker(is_default));
    }
}

/// Appends the edit cursor when the row is being edited.
fn push_cursor(line: &mut Vec<Segment>, here: bool)
    ensures
        line_view(final(line)@) == line_view(old(line)@)
            + (if here { seq![plain("_"@, Tone::Highlight)] } else { Seq::<Seg>::empty() }),
{
    if here {
        push_seg(line, "_".to_owned(), Tone::Highlight, false, false);
    } else {
        assert(line_view(line@) =~= line_view(line@) + Seq::<Seg>::empty());
    }
}

/// `a` followed by `b`.
fn cat(a: &str, b: &str) -> (r: String)
    ensures
        r@ == a@ + b@,
{
    let mut r = a.to_owned();
    crate::text::push_str(&mut r, b);
    r
}

/// `a`, `b` and `c` in turn.
fn cat3(a: &str, b: &str, c: &str) -> (r: String)
    ensures
        r@ == a@ + b@ + c@,
{
    let mut r = a.to_owned();
    crate::text::push_str(&mut r, b);
    crate::text::push_str(&mut r, c);
    r
}

/// One star per UTF-8 byte of `s`, as `"*".repeat(s.len())` gives.
fn password_mask(s: &String) -> (r: String)
    ensures
        r@ == Seq::new(utf8_len(s@) as nat, |i: int| '*'),
{
    let v = crate::text::chars_of(s.as_str());
    let mut r = String::new();
    let mut i: usize = 0;
    assert(v@.take(0) =~= Seq::<char>::empty());
    while i < v.len()
        invariant
            i <= v.len(),
            v@ == s@,
            utf8_len(v@.take(i as int)) >= 0,
            r@ == Seq::new(utf8_len(v@.take(i as int)) as nat, |k: int| '*'),
        decreases v.len() - i,
    {
        let c = v[i];
        let w: usize = if (c as u32) < 0x80 { 1 } else if (c as u32) < 0x800 { 2 } else if (c as u32) < 0x10000 { 3 } else { 4 };
        assert(v@.take(i + 1).drop_last() =~= v@.take(i as int));
        assert(v@.take(i + 1).last() == c);
        let ghost base = utf8_len(v@.take(i as int));
        let mut k: usize = 0;
        while k < w
            invariant
                k <= w,
                base >= 0,
                r@ == Seq::new((base + k) as nat, |j: int| '*'),
            decreases w - k,
        {
            crate::text::push_char(&mut r, '*');
            assert(r@ =~= Seq::new((base + k + 1) as nat, |j: int| '*'));
            k = k + 1;
        }
        i = i + 1;
    }
    assert(v@.take(v.len() as int) =~= v@);
    r
}

/// A row of one line.
fn single_line(line: Vec<Segment>) -> (r: Vec<Vec<Segment>>)
    ensures
        lines_view(r@) == seq![line_view(line@)],
{
    let mut r: Vec<Vec<Segment>> = Vec::new();
    let ghost lv = line_view(line@);
    r.push(line);
    assert(lines_view(r@) =~= seq![lv]);
    r
}

/// The shown name of a component.
fn component_name_str(c: SidebarComponent) -> (s: &'static str)
    ensures
        s@ == component_name(c),
{
    match c {
        SidebarComponent::Lyrics => "lyrics",
        SidebarComponent::SimilarSongs => "similar songs",
    }
}

/// The component names joined by ", ".
fn join_names(list: &Vec<SidebarComponent>) -> (r: String)
    ensures
        r@ == joined_names(list@),
{
    let mut r = String::new();
    let mut i: usize = 0;
    assert(list@.take(0) =~= Seq::<SidebarComponent>::empty());
    while i < list.len()
        invariant
            i <= list.len(),
            r@ == joined_names(list@.take(i as int)),
        decreases list.len() - i,
    {
        let ghost t = list@.take(i + 1);
        assert(t.drop_last() =~= list@.take(i as int));
        assert(t.last() == list@[i as int]);
        if i > 0 {
            crate::text::push_str(&mut r, ", ");
        } else {
            assert(t =~= seq![list@[0]]);
        }
        crate::text::push_str(&mut r, component_name_str(list[i]));
        assert(r@ =~= joined_names(t));
        i = i + 1;
    }
    assert(list@.take(list.len() as int) =~= list@);
    r
}

/// The lines of the component list row while it is edited: a header line,
/// then one line per component.
fn component_lines(label: &str, sel_tone: Tone, list: &Vec<SidebarComponent>, is_default: bool, list_sel: usize,
    armed: bool) -> (r: Vec<Vec<Segment>>)
    ensures
        lines_view(r@) == seq![seq![plain(label@ + ":"@, sel_tone)] + marker(is_default)]
            + Seq::new(list@.len(), |i: int| item_line(list@[i], i == list_sel, armed)),
{
    let mut head: Vec<Segment> = Vec::new();
    push_seg(&mut head, cat(label, ":"), sel_tone, false, false);
    push_marker(&mut head, is_default);
    let ghost hv = line_view(head@);
    let mut r: Vec<Vec<Segment>> = Vec::new();
    r.push(head);
    assert(lines_view(r@) =~= seq![hv]);
    let mut i: usize = 0;
    while i < list.len()
        invariant
            i <= list.len(),
            hv == seq![plain(label@ + ":"@, sel_tone)] + marker(is_default),
            lines_view(r@) == seq![hv] + Seq::new(i as nat, |k: int| item_line(list@[k], k == list_sel, armed)),
        decreases list.len() - i,
    {
        let is_sel = i == list_sel;
        let mark = if is_sel && armed { ">>" } else if is_sel { "> " } else { "  " };
        let mut text = cat3("  ", mark, " ");
        crate::text::push_str(&mut text, component_name_str(list[i]));
        let mut line: Vec<Segment> = Vec::new();
        push_seg(&mut line, text, if is_sel { Tone::Highlight } else { Tone::Text }, is_sel, false);
        let ghost before = lines_view(r@);
        let ghost lv = line_view(line@);
        assert(lv =~= item_line(list@[i as int], i == list_sel, armed));
        r.push(line);
        assert(lines_view(r@) =~= before.push(lv));
        assert(Seq::new((i + 1) as nat, |k: int| item_line(list@[k], k == list_sel, armed))
            =~= Seq::new(i as nat, |k: int| item_line(list@[k], k == list_sel, armed)).push(lv));
        i = i + 1;
    }
    r
}

/// The segments of a color row after the swatch.
fn color_segments(name: &String, here: bool, sel_tone: Tone, hsv: HsvComponent, extras: &RowExtras, line: &mut Vec<Segment>)
    ensures
        line_view(final(line)@) == line_view(old(line)@) + (if here {
            seq![plain(name@ + ": "@, Tone::Highlight)] + hsv_pieces(hsv, extras.color_h@, extras.color_s@, extras.color_v@)
        } else {
            seq![plain(name@ + ": H:"@ + extras.color_h@ + " S:"@ + extras.color_s@ + " V:"@ + extras.color_v@, sel_tone)]
        }),
{
    let ghost before = line_view(line@);
    if here {
        push_seg(line, cat(name.as_str(), ": "), Tone::Highlight, false, false);
        let on_h = hsv == HsvComponent::H;
        let on_s = hsv == HsvComponent::S;
        let on_v = hsv == HsvComponent::V;
        push_seg(line, cat("H:", extras.color_h.as_str()), if on_h { Tone::Highlight } else { Tone::Text }, on_h, on_h);
        push_seg(line, " ".to_owned(), Tone::Raw, false, false);
        push_seg(line, cat("S:", extras.color_s.as_str()), if on_s { Tone::Highlight } else { Tone::Text }, on_s, on_s);
        push_seg(line, " ".to_owned(), Tone::Raw, false, false);
        push_seg(line, cat("V:", extras.color_v.as_str()), if on_v { Tone::Highlight } else { Tone::Text }, on_v, on_v);
        assert(line_view(line@) =~= before + (seq![plain(name@ + ": "@, Tone::Highlight)]
            + hsv_pieces(hsv, extras.color_h@, extras.color_s@, extras.color_v@)));
    } else {
        let mut t = cat(name.as_str(), ": H:");
        crate::text::push_str(&mut t, extras.color_h.as_str());
        crate::text::push_str(&mut t, " S:");
        crate::text::push_str(&mut t, extras.color_s.as_str());
        crate::text::push_str(&mut t, " V:");
        crate::text::push_str(&mut t, extras.color_v.as_str());
        push_seg(line, t, sel_tone, false, false);
    }
}

/// The lines `render_row` draws for a row, in the panel's state.
pub open spec fn drawn_lines(
    row: SettingsRow,
    values: SettingsValues,
    defaults: SettingsValues,
    is_selected: bool,
    state: SettingsState,
    extras: RowExtras,
) -> Seq<Seq<Seg>> {
    row_lines(row.kind, row.label@, values, defaults, is_selected, state.editing,
        state.edit_buffer@, state.component_list_sel, state.component_list_armed, state.hsv_component,
        extras.float_at_default, extras.enum_name@, extras.color_h@, extras.color_s@, extras.color_v@,
        extras.color_at_default)
}

/// The line of a spacer, header, boolean or enumeration row.
fn simple_line(row: &SettingsRow, values: &SettingsValues, defaults: &SettingsValues, is_selected: bool,
    state: &SettingsState, extras: &RowExtras) -> (line: Vec<Segment>)
    requires
        row.kind is SectionSpacer || row.kind is SectionHeader || row.kind is BoolField || row.kind is EnumField
            || row.kind is EnumFieldDyn,
    ensures
        seq![line_view(line@)] =~~= drawn_lines(*row, *values, *defaults, is_selected, *state, *extras),
{
    let sel_tone = if is_selected { Tone::Highlight } else { Tone::Text };
    let label = row.label.as_str();
    let mut line: Vec<Segment> = Vec::new();
    match row.kind {
        RowKind::SectionSpacer => {
            push_seg(&mut line, String::new(), Tone::Raw, false, false);
        },
        RowKind::SectionHeader => {
            push_seg(&mut line, cat3("\u{2500}\u{2500} ", label, " \u{2500}\u{2500}"), Tone::Album, true, false);
        },
        RowKind::BoolField(f) => {
            let value = read_bool(values, f);
            push_seg(&mut line, cat3(if value { "[x]" } else { "[ ]" }, " ", label), sel_tone, false, false);
            push_marker(&mut line, value == read_bool(defaults, f));
        },
        RowKind::EnumField { field, .. } => {
            push_seg(&mut line, cat3(label, ": ", extras.enum_name.as_str()), sel_tone, false, false);
            push_marker(&mut line, read_usize(values, field) == read_usize(defaults, field));
        },
        RowKind::EnumFieldDyn { field, .. } => {
            let idx = read_usize(values, field);
            let name = if idx == 0 { "left" } else if idx == 1 { "right" } else { "?" };
            push_seg(&mut line, cat3(label, ": ", name), sel_tone, false, false);
            push_marker(&mut line, idx == read_usize(defaults, field));
        },
        _ => {},
    }
    line
}

/// The line of a text or number row.
fn value_line(row: &SettingsRow, values: &SettingsValues, defaults: &SettingsValues, is_selected: bool,
    state: &SettingsState, extras: &RowExtras) -> (line: Vec<Segment>)
    requires
        row.kind is StringField || row.kind is UsizeField || row.kind is F32Field || row.kind is U64Field,
    ensures
        seq![line_view(line@)] =~~= drawn_lines(*row, *values, *defaults, is_selected, *state, *extras),
{
    let sel_tone = if is_selected { Tone::Highlight } else { Tone::Text };
    let here = is_selected && state.editing;
    let label = row.label.as_str();
    let mut line: Vec<Segment> = Vec::new();
    push_seg(&mut line, cat(label, ": "), sel_tone, false, false);
    match row.kind {
        RowKind::StringField { field, password } => {
            let value = read_text(values, field);
            let shown = if here {
                state.edit_buffer.clone()
            } else if password {
                password_mask(&value)
            } else {
                value.clone()
            };
            push_seg(&mut line, shown, if here { Tone::Highlight } else { Tone::Text }, false, false);
            push_cursor(&mut line, here);
            let dv = read_text(defaults, field);
            push_marker(&mut line, crate::text::str_equal(value.as_str(), dv.as_str()));
        },
        RowKind::UsizeField { field, .. } => {
            let value = read_usize(values, field);
            let shown = if here { state.edit_buffer.clone() } else { decimal_string(value as u64) };
            push_seg(&mut line, shown, Tone::Text, false, false);
            push_cursor(&mut line, here);
            push_marker(&mut line, value == read_usize(defaults, field));
        },
        RowKind::F32Field(field) => {
            let shown = if here { state.edit_buffer.clone() } else { read_text(values, field) };
            push_seg(&mut line, shown, Tone::Text, false, false);
            push_cursor(&mut line, here);
            push_marker(&mut line, extras.float_at_default);
        },
        RowKind::U64Field { field, .. } => {
            let value = read_u64(values, field);
            let shown = if here { state.edit_buffer.clone() } else { decimal_string(value) };
            push_seg(&mut line, shown, Tone::Text, false, false);
            push_cursor(&mut line, here);
            push_marker(&mut line, value == read_u64(defaults, field));
        },
        _ => {},
    }
    line
}

/// The line of the component list row when it is not being edited.
fn components_line(row: &SettingsRow, values: &SettingsValues, defaults: &SettingsValues, is_selected: bool,
    state: &SettingsState, extras: &RowExtras) -> (line: Vec<Segment>)
    requires
        row.kind is ComponentList,
        !(is_selected && state.editing),
    ensures
        seq![line_view(line@)] =~~= drawn_lines(*row, *values, *defaults, is_selected, *state, *extras),
{
    let sel_tone = if is_selected { Tone::Highlight } else { Tone::Text };
    let is_default = components_equal(&values.components, &defaults.components);
    let mut line: Vec<Segment> = Vec::new();
    push_seg(&mut line, cat(row.label.as_str(), ":"), sel_tone, false, false);
    push_seg(&mut line, cat(" ", join_names(&values.components).as_str()), sel_tone, false, false);
    push_marker(&mut line, is_default);
    line
}

/// The line of a color row.
fn color_line(row: &SettingsRow, values: &SettingsValues, defaults: &SettingsValues, is_selected: bool,
    state: &SettingsState, extras: &RowExtras) -> (line: Vec<Segment>)
    requires
        row.kind is HsvField,
    ensures
        seq![line_view(line@)] =~~= drawn_lines(*row, *values, *defaults, is_selected, *state, *extras),
{
    let sel_tone = if is_selected { Tone::Highlight } else { Tone::Text };
    let here = is_selected && state.editing;
    let name = human_readable_label(row.label.as_str());
    let mut line: Vec<Segment> = Vec::new();
    push_seg(&mut line, "\u{2588}\u{2588}".to_owned(), Tone::Swatch, false, false);
    push_seg(&mut line, " ".to_owned(), Tone::Raw, false, false);
    color_segments(&name, here, sel_tone, state.hsv_component, extras, &mut line);
    push_marker(&mut line, extras.color_at_default);
    line
}

/// The lines of a settings row as drawn: see `row_lines`.
pub fn render_row(
    row: &SettingsRow,
    values: &SettingsValues,
    defaults: &SettingsValues,
    is_selected: bool,
    state: &SettingsState,
    extras: &RowExtras,
) -> (r: Vec<Vec<Segment>>)
    ensures
        lines_view(r@) =~~= drawn_lines(*row, *values, *defaults, is_selected, *state, *extras),
{
    let line = match row.kind {
        RowKind::SectionSpacer | RowKind::SectionHeader | RowKind::BoolField(_) | RowKind::EnumField { .. }
        | RowKind::EnumFieldDyn { .. } => simple_line(row, values, defaults, is_selected, state, extras),
        RowKind::StringField { .. } | RowKind::UsizeField { .. } | RowKind::F32Field(_)
        | RowKind::U64Field { .. } => value_line(row, values, defaults, is_selected, state, extras),
        RowKind::ComponentList(_) => {
            if is_selected && state.editing {
                let is_default = components_equal(&values.components, &defaults.components);
                let sel_tone = if is_selected { Tone::Highlight } else { Tone::Text };
                return component_lines(row.label.as_str(), sel_tone, &values.components, is_default,
                    state.component_list_sel, state.component_list_armed);
            }
            components_line(row, values, defaults, is_selected, state, extras)
        },
        RowKind::HsvField { .. } => color_line(row, values, defaults, is_selected, state, extras),
    };
    single_line(line)
}

/// Whether two component lists are the same.
fn components_equal(a: &Vec<SidebarComponent>, b: &Vec<SidebarComponent>) -> (r: bool)
    ensures
        r == (a@ == b@),
{
    if a.len() != b.len() {
        return false;
    }
    let mut i: usize = 0;
    while i < a.len()
        invariant
            i <= a.len() == b.len(),
            forall|k: int| 0 <= k < i ==> a@[k] == b@[k],
        decreases a.len() - i,
    {
        if a[i] != b[i] {
            return false;
        }
        i = i + 1;
    }
    assert(a@ =~= b@);
    true
}

/// Records what a draw of the list in `inner` shows: the list is scrolled so
/// the selected row sits half a screen from the top (or at the top), and the
/// area, its height and the offset are kept for mouse hit-testing. Returns
/// the offset. A draw into an empty area records nothing.
pub fn record_draw(state: &mut SettingsState, inner: Rect) -> (offset: Option<usize>)
    ensures
        inner.height == 0 || inner.width == 0 ==> offset is None && *final(state) == *old(state),
        !(inner.height == 0 || inner.width == 0) ==> {
            &&& offset == Some(crate::geometry::sat_sub(old(state).selected_index as int, (inner.height / 2) as int) as usize)
            &&& final(state).scroll_offset == offset.unwrap()
            &&& final(state).last_inner_area == Some(inner)
            &&& final(state).last_visible_height == inner.height as usize
            &&& panel(*final(state)) == panel(*old(state))
            &&& final(state).rows == old(state).rows
        },
{
    if inner.height == 0 || inner.width == 0 {
        return None;
    }
    let visible_height = inner.height as usize;
    let offset = state.selected_index.saturating_sub(visible_height / 2);
    state.last_inner_area = Some(inner);
    state.last_visible_height = visible_height;
    state.scroll_offset = offset;
    Some(offset)
}

} // verus!
