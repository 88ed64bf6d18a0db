//! App-level sidebar state shared between the Vault and Send screens.

use vstd::prelude::*;

use crate::domain::{Organization, OrganizationId};

verus! {

#[derive(Debug, Clone, Copy, PartialEq, Eq, Structural)]
pub enum SidebarMode {
    Collapsed,
    Expanded,
}

/// The "which screen / module am I in" nav facet. Generator / Import /
/// Export open modals rather than screens.
#[derive(Debug, Clone, Copy, PartialEq, Eq, Structural)]
pub enum NavSection {
    Vault,
    Send,
    Generator,
    Import,
    Export,
}

/// Kind of a vault item.
#[derive(Debug, Clone, Copy, PartialEq, Eq, Structural)]
pub enum CipherType {
    Login,
    SecureNote,
    Card,
    Identity,
    SshKey,
}

/// Filter applied to the vault's cipher list.
#[derive(Debug, Clone, Copy, PartialEq, Eq, Structural)]
pub enum VaultFilter {
    /// Every cipher the user can see.
    AllItems,
    /// Personal ciphers only (not owned by an organization).
    Personal,
    Organization(OrganizationId),
    Favorites,
    Category(CipherType),
    Archive,
    Trash,
}

/// Filter applied to the send list.
#[derive(Debug, Clone, Copy, PartialEq, Eq, Structural)]
pub enum SendFilter {
    AllItems,
    Text,
    File,
}

/// Sidebar chrome state that persists across screen switches.
#[derive(Debug, Clone, Copy, PartialEq, Eq, Structural)]
pub struct SidebarState {
    pub mode: SidebarMode,
    pub active_section: NavSection,
    pub active_vault_filter: VaultFilter,
    pub active_send_filter: SendFilter,
    pub vault_tree_open: bool,
    pub send_tree_open: bool,
}

pub open spec fn default_sidebar() -> SidebarState {
    SidebarState {
        mode: SidebarMode::Expanded,
        active_section: NavSection::Vault,
        active_vault_filter: VaultFilter::AllItems,
        active_send_filter: SendFilter::AllItems,
        vault_tree_open: true,
        send_tree_open: true,
    }
}

impl Default for SidebarState {
    fn default() -> (s: Self)
        ensures
            s == default_sidebar(),
    {
        SidebarState {
            mode: SidebarMode::Expanded,
            active_section: NavSection::Vault,
            active_vault_filter: VaultFilter::AllItems,
            active_send_filter: SendFilter::AllItems,
            vault_tree_open: true,
            send_tree_open: true,
        }
    }
}

impl SidebarMode {
    pub open spec fn flipped(self) -> SidebarMode {
        match self {
            SidebarMode::Collapsed => SidebarMode::Expanded,
            SidebarMode::Expanded => SidebarMode::Collapsed,
        }
    }

    pub fn flip(self) -> (m: SidebarMode)
        ensures
            m == self.flipped(),
    {
        match self {
            SidebarMode::Collapsed => SidebarMode::Expanded,
            SidebarMode::Expanded => SidebarMode::Collapsed,
        }
    }
}

#[derive(Debug, Clone, Copy, PartialEq, Eq, Structural)]
pub enum SidebarMessage {
    ToggleSidebarMode,
    SectionSelected(NavSection),
    ToggleVaultTree,
    ToggleSendTree,
    VaultFilterSelected(VaultFilter),
    SendFilterSelected(SendFilter),
}

/// What a sidebar row shows.
#[derive(Debug, Clone, Copy, PartialEq, Eq, Structural)]
pub enum RowKind {
    /// The collapsible "Vault" header; its chevron sends `ToggleVaultTree`.
    VaultHeader { open: bool },
    /// The collapsible "Send" header; its chevron sends `ToggleSendTree`.
    SendHeader { open: bool },
    /// A vault filter entry (an organization entry carries its id).
    Vault(VaultFilter),
    Send(SendFilter),
    /// A section entry (the modal sections in the panel, every section in
    /// the collapsed rail).
    Item(NavSection),
    /// The button at the foot of the panel or the rail that collapses the
    /// panel or expands the rail.
    ModeToggle,
}

/// One row of the sidebar: what it shows, whether it is highlighted, the
/// message a press sends, and, for a collapsible header, the message its
/// chevron sends.
#[derive(Debug, Clone, Copy, PartialEq, Eq, Structural)]
pub struct SidebarRow {
    pub kind: RowKind,
    pub selected: bool,
    pub on_press: SidebarMessage,
    pub on_toggle: Option<SidebarMessage>,
}

pub open spec fn vault_row(s: SidebarState, f: VaultFilter) -> SidebarRow {
    SidebarRow {
        kind: RowKind::Vault(f),
        selected: s.active_section == NavSection::Vault && s.active_vault_filter == f,
        on_press: SidebarMessage::VaultFilterSelected(f),
        on_toggle: None,
    }
}

pub open spec fn send_row(s: SidebarState, f: SendFilter) -> SidebarRow {
    SidebarRow {
        kind: RowKind::Send(f),
        selected: s.active_section == NavSection::Send && s.active_send_filter == f,
        on_press: SidebarMessage::SendFilterSelected(f),
        on_toggle: None,
    }
}

pub open spec fn item_row(s: SidebarState, section: NavSection) -> SidebarRow {
    SidebarRow {
        kind: RowKind::Item(section),
        selected: s.active_section == section,
        on_press: SidebarMessage::SectionSelected(section),
        on_toggle: None,
    }
}

/// The vault header: its label selects "all items" (and is highlighted
/// there), its chevron opens or closes the vault tree.
pub open spec fn vault_header_row(s: SidebarState) -> SidebarRow {
    SidebarRow {
        kind: RowKind::VaultHeader { open: s.vault_tree_open },
        selected: s.active_section == NavSection::Vault && s.active_vault_filter == VaultFilter::AllItems,
        on_press: SidebarMessage::VaultFilterSelected(VaultFilter::AllItems),
        on_toggle: Some(SidebarMessage::ToggleVaultTree),
    }
}

/// The send header: its label selects "all sends", its chevron opens or
/// closes the send tree.
pub open spec fn send_header_row(s: SidebarState) -> SidebarRow {
    SidebarRow {
        kind: RowKind::SendHeader { open: s.send_tree_open },
        selected: s.active_section == NavSection::Send && s.active_send_filter == SendFilter::AllItems,
        on_press: SidebarMessage::SendFilterSelected(SendFilter::AllItems),
        on_toggle: Some(SidebarMessage::ToggleSendTree),
    }
}

/// The collapse / expand button; never highlighted.
pub open spec fn mode_toggle_row() -> SidebarRow {
    SidebarRow {
        kind: RowKind::ModeToggle,
        selected: false,
        on_press: SidebarMessage::ToggleSidebarMode,
        on_toggle: None,
    }
}

/// The vault tree below its header: "My vault", one entry per
/// organization, favorites, the five item kinds, archive and trash.
pub open spec fn vault_tree(s: SidebarState, orgs: Seq<OrganizationId>) -> Seq<SidebarRow> {
    seq![vault_row(s, VaultFilter::Personal)]
        + Seq::new(orgs.len(), |i: int| vault_row(s, VaultFilter::Organization(orgs[i])))
        + seq![
            vault_row(s, VaultFilter::Favorites),
            vault_row(s, VaultFilter::Category(CipherType::Login)),
            vault_row(s, VaultFilter::Category(CipherType::Card)),
            vault_row(s, VaultFilter::Category(CipherType::Identity)),
            vault_row(s, VaultFilter::Category(CipherType::SecureNote)),
            vault_row(s, VaultFilter::Category(CipherType::SshKey)),
            vault_row(s, VaultFilter::Archive),
            vault_row(s, VaultFilter::Trash),
        ]
}

/// The expanded panel, top to bottom: the vault header and, when open, its
/// tree; the send header and, when open, the text and file entries; then
/// generator, import and export; last the button that collapses the panel.
pub open spec fn expanded_rows(s: SidebarState, orgs: Seq<OrganizationId>) -> Seq<SidebarRow> {
    seq![vault_header_row(s)]
        + (if s.vault_tree_open { vault_tree(s, orgs) } else { Seq::empty() })
        + seq![send_header_row(s)]
        + (if s.send_tree_open { seq![send_row(s, SendFilter::Text), send_row(s, SendFilter::File)] } else { Seq::empty() })
        + seq![
            item_row(s, NavSection::Generator),
            item_row(s, NavSection::Import),
            item_row(s, NavSection::Export),
            mode_toggle_row(),
        ]
}

/// The collapsed icon rail: one entry per section, then the button that
/// expands the panel.
pub open spec fn rail_rows(s: SidebarState) -> Seq<SidebarRow> {
    seq![
        item_row(s, NavSection::Vault),
        item_row(s, NavSection::Send),
        item_row(s, NavSection::Generator),
        item_row(s, NavSection::Import),
        item_row(s, NavSection::Export),
        mode_toggle_row(),
    ]
}

pub open spec fn org_ids(orgs: Seq<Organization>) -> Seq<OrganizationId> {
    Seq::new(orgs.len(), |i: int| orgs[i].id)
}

fn make_vault_row(s: &SidebarState, f: VaultFilter) -> (r: SidebarRow)
    ensures
        r == vault_row(*s, f),
{
    SidebarRow {
        kind: RowKind::Vault(f),
        selected: s.active_section == NavSection::Vault && s.active_vault_filter == f,
        on_press: SidebarMessage::VaultFilterSelected(f),
        on_toggle: None,
    }
}

fn make_send_row(s: &SidebarState, f: SendFilter) -> (r: SidebarRow)
    ensures
        r == send_row(*s, f),
{
    SidebarRow {
        kind: RowKind::Send(f),
        selected: s.active_section == NavSection::Send && s.active_send_filter == f,
        on_press: SidebarMessage::SendFilterSelected(f),
        on_toggle: None,
    }
}

fn make_item_row(s: &SidebarState, section: NavSection) -> (r: SidebarRow)
    ensures
        r == item_row(*s, section),
{
    SidebarRow {
        kind: RowKind::Item(section),
        selected: s.active_section == section,
        on_press: SidebarMessage::SectionSelected(section),
        on_toggle: None,
    }
}

fn make_mode_toggle_row() -> (r: SidebarRow)
    ensures
        r == mode_toggle_row(),
{
    SidebarRow {
        kind: RowKind::ModeToggle,
        selected: false,
        on_press: SidebarMessage::ToggleSidebarMode,
        on_toggle: None,
    }
}

impl SidebarState {
    /// The rows the sidebar shows, top to bottom: the expanded panel or
    /// the collapsed rail.
    pub fn rows(&self, organizations: &[Organization]) -> (rows: Vec<SidebarRow>)
        ensures
            rows@ == (if self.mode == SidebarMode::Expanded {
                expanded_rows(*self, org_ids(organizations@))
            } else {
                rail_rows(*self)
            }),
    {
        let mut rows: Vec<SidebarRow> = Vec::new();
        if self.mode != SidebarMode::Expanded {
            rows.push(make_item_row(self, NavSection::Vault));
            rows.push(make_item_row(self, NavSection::Send));
            rows.push(make_item_row(self, NavSection::Generator));
            rows.push(make_item_row(self, NavSection::Import));
            rows.push(make_item_row(self, NavSection::Export));
            rows.push(make_mode_toggle_row());
            assert(rows@ =~= rail_rows(*self));
            return rows;
        }
        let ghost orgs = org_ids(organizations@);
        rows.push(SidebarRow {
            kind: RowKind::VaultHeader { open: self.vault_tree_open },
            selected: self.active_section == NavSection::Vault && self.active_vault_filter == VaultFilter::AllItems,
            on_press: SidebarMessage::VaultFilterSelected(VaultFilter::AllItems),
            on_toggle: Some(SidebarMessage::ToggleVaultTree),
        });
        let ghost head = rows@;
        if self.vault_tree_open {
            rows.push(make_vault_row(self, VaultFilter::Personal));
            let mut i: usize = 0;
            while i < organizations.len()
                invariant
                    i <= organizations@.len(),
                    orgs == org_ids(organizations@),
                    rows@ == head + seq![vault_row(*self, VaultFilter::Personal)]
                        + Seq::new(i as nat, |k: int| vault_row(*self, VaultFilter::Organization(orgs[k]))),
                decreases organizations@.len() - i,
            {
                rows.push(make_vault_row(self, VaultFilter::Organization(organizations[i].id)));
                i = i + 1;
                assert(rows@ =~= head + seq![vault_row(*self, VaultFilter::Personal)]
                    + Seq::new(i as nat, |k: int| vault_row(*self, VaultFilter::Organization(orgs[k]))));
            }
            rows.push(make_vault_row(self, VaultFilter::Favorites));
            rows.push(make_vault_row(self, VaultFilter::Category(CipherType::Login)));
            rows.push(make_vault_row(self, VaultFilter::Category(CipherType::Card)));
            rows.push(make_vault_row(self, VaultFilter::Category(CipherType::Identity)));
            rows.push(make_vault_row(self, VaultFilter::Category(CipherType::SecureNote)));
            rows.push(make_vault_row(self, VaultFilter::Category(CipherType::SshKey)));
            rows.push(make_vault_row(self, VaultFilter::Archive));
            rows.push(make_vault_row(self, VaultFilter::Trash));
            assert(rows@ =~= head + vault_tree(*self, orgs));
        }
        let ghost mid = rows@;
        rows.push(SidebarRow {
            kind: RowKind::SendHeader { open: self.send_tree_open },
            selected: self.active_section == NavSection::Send && self.active_send_filter == SendFilter::AllItems,
            on_press: SidebarMessage::SendFilterSelected(SendFilter::AllItems),
            on_toggle: Some(SidebarMessage::ToggleSendTree),
        });
        if self.send_tree_open {
            rows.push(make_send_row(self, SendFilter::Text));
            rows.push(make_send_row(self, SendFilter::File));
        }
        rows.push(make_item_row(self, NavSection::Generator));
        rows.push(make_item_row(self, NavSection::Import));
        rows.push(make_item_row(self, NavSection::Export));
        rows.push(make_mode_toggle_row());
        assert(rows@ =~= expanded_rows(*self, orgs));
        rows
    }
}

/// Exactly one entry of the collapsed rail is highlighted: the active
/// section's; the rail ends with the button that expands the panel.
pub proof fn lemma_rail_highlights_active_section(s: SidebarState)
    ensures
        rail_rows(s).len() == 6,
        exists|i: int| 0 <= i < 6 && (#[trigger] rail_rows(s)[i]).selected,
        forall|i: int, j: int| 0 <= i < 6 && 0 <= j < 6 && #[trigger] rail_rows(s)[i].selected
            && #[trigger] rail_rows(s)[j].selected ==> i == j,
        rail_rows(s).last() == mode_toggle_row(),
{
    let r = rail_rows(s);
    match s.active_section {
        NavSection::Vault => assert(r[0].selected),
        NavSection::Send => assert(r[1].selected),
        NavSection::Generator => assert(r[2].selected),
        NavSection::Import => assert(r[3].selected),
        NavSection::Export => assert(r[4].selected),
    }
}

/// The fixed entries of the vault tree below the organizations.
spec fn fixed_vault_filters() -> Seq<VaultFilter> {
    seq![
        VaultFilter::Favorites,
        VaultFilter::Category(CipherType::Login),
        VaultFilter::Category(CipherType::Card),
        VaultFilter::Category(CipherType::Identity),
        VaultFilter::Category(CipherType::SecureNote),
        VaultFilter::Category(CipherType::SshKey),
        VaultFilter::Archive,
        VaultFilter::Trash,
    ]
}

/// The filter of the vault tree's `k`-th row.
spec fn tree_filter(orgs: Seq<OrganizationId>, k: int) -> VaultFilter {
    if k == 0 {
        VaultFilter::Personal
    } else if k <= orgs.len() {
        VaultFilter::Organization(orgs[k - 1])
    } else {
        fixed_vault_filters()[k - 1 - orgs.len()]
    }
}

/// Every row of the vault tree is a vault-filter entry, never the "all
/// items" one (that is the header's), and with distinct organizations no
/// two rows show the same filter.
proof fn lemma_vault_tree_rows(s: SidebarState, orgs: Seq<OrganizationId>)
    ensures
        vault_tree(s, orgs).len() == orgs.len() + 9,
        forall|k: int| 0 <= k < vault_tree(s, orgs).len() ==>
            #[trigger] vault_tree(s, orgs)[k] == vault_row(s, tree_filter(orgs, k))
            && tree_filter(orgs, k) != VaultFilter::AllItems,
        orgs.no_duplicates() ==> forall|k: int, l: int| 0 <= k < l < vault_tree(s, orgs).len()
            ==> #[trigger] tree_filter(orgs, k) != #[trigger] tree_filter(orgs, l),
{
    let tree = vault_tree(s, orgs);
    let n = orgs.len() as int;
    let fs = fixed_vault_filters();
    assert forall|k: int| 0 <= k < tree.len() implies
        #[trigger] tree[k] == vault_row(s, tree_filter(orgs, k)) && tree_filter(orgs, k) != VaultFilter::AllItems by {
        if k > n {
            let m = k - 1 - n;
            assert(0 <= m < 8);
        }
    }
    if orgs.no_duplicates() {
        assert forall|k: int, l: int| 0 <= k < l < tree.len() implies
            #[trigger] tree_filter(orgs, k) != #[trigger] tree_filter(orgs, l) by {
            if k > n {
                assert(0 <= k - 1 - n < l - 1 - n < 8);
            }
        }
    }
}

/// In the expanded panel a row is highlighted only when it shows what the
/// sidebar is on: a vault entry or the vault header only while the vault
/// section is active, and then only for the active vault filter; a send
/// entry or the send header only while the send section is active, for the
/// active send filter; a section entry only for its section; the collapse
/// button never. "All items" is shown only by the headers, so every
/// highlighted row shows the same entry.
pub proof fn lemma_expanded_highlight(s: SidebarState, orgs: Seq<OrganizationId>)
    ensures
        forall|i: int| 0 <= i < expanded_rows(s, orgs).len() && (#[trigger] expanded_rows(s, orgs)[i]).selected
            ==> (match expanded_rows(s, orgs)[i].kind {
                RowKind::Vault(f) => s.active_section == NavSection::Vault && s.active_vault_filter == f,
                RowKind::VaultHeader { .. } => s.active_section == NavSection::Vault
                    && s.active_vault_filter == VaultFilter::AllItems,
                RowKind::Send(f) => s.active_section == NavSection::Send && s.active_send_filter == f,
                RowKind::SendHeader { .. } => s.active_section == NavSection::Send
                    && s.active_send_filter == SendFilter::AllItems,
                RowKind::Item(section) => s.active_section == section,
                RowKind::ModeToggle => false,
            }),
        forall|i: int| 0 <= i < expanded_rows(s, orgs).len() ==>
            (#[trigger] expanded_rows(s, orgs)[i]).kind != RowKind::Vault(VaultFilter::AllItems)
            && expanded_rows(s, orgs)[i].kind != RowKind::Send(SendFilter::AllItems),
        forall|i: int, j: int| 0 <= i < expanded_rows(s, orgs).len() && 0 <= j < expanded_rows(s, orgs).len()
            && (#[trigger] expanded_rows(s, orgs)[i]).selected && (#[trigger] expanded_rows(s, orgs)[j]).selected
            ==> expanded_rows(s, orgs)[i].kind == expanded_rows(s, orgs)[j].kind,
{
    let rows = expanded_rows(s, orgs);
    let tree = if s.vault_tree_open { vault_tree(s, orgs) } else { Seq::empty() };
    let sends = if s.send_tree_open { seq![send_row(s, SendFilter::Text), send_row(s, SendFilter::File)] } else { Seq::<SidebarRow>::empty() };
    let tail = seq![
        item_row(s, NavSection::Generator),
        item_row(s, NavSection::Import),
        item_row(s, NavSection::Export),
        mode_toggle_row(),
    ];
    lemma_vault_tree_rows(s, orgs);
    let a = 1 + tree.len();
    let b = a + 1;
    let c = b + sends.len();
    assert forall|i: int| 0 <= i < rows.len() implies
        ((#[trigger] rows[i]).selected ==> (match rows[i].kind {
            RowKind::Vault(f) => s.active_section == NavSection::Vault && s.active_vault_filter == f,
            RowKind::VaultHeader { .. } => s.active_section == NavSection::Vault
                && s.active_vault_filter == VaultFilter::AllItems,
            RowKind::Send(f) => s.active_section == NavSection::Send && s.active_send_filter == f,
            RowKind::SendHeader { .. } => s.active_section == NavSection::Send
                && s.active_send_filter == SendFilter::AllItems,
            RowKind::Item(section) => s.active_section == section,
            RowKind::ModeToggle => false,
        }))
        && rows[i].kind != RowKind::Vault(VaultFilter::AllItems)
        && rows[i].kind != RowKind::Send(SendFilter::AllItems) by {
        if i == 0 {
        } else if i < a {
            assert(rows[i] == tree[i - 1]);
            assert(vault_tree(s, orgs)[i - 1] == vault_row(s, tree_filter(orgs, i - 1)));
        } else if i == a {
            assert(rows[i] == send_header_row(s));
        } else if i < c {
            assert(rows[i] == sends[i - b]);
        } else {
            assert(rows[i] == tail[i - c]);
        }
    }
}

/// With no organization listed twice, no two rows of the expanded panel
/// show the same entry, so at most one row is highlighted.
pub proof fn lemma_expanded_highlights_at_most_one(s: SidebarState, orgs: Seq<OrganizationId>)
    requires
        orgs.no_duplicates(),
    ensures
        forall|i: int, j: int| 0 <= i < j < expanded_rows(s, orgs).len()
            ==> (#[trigger] expanded_rows(s, orgs)[i]).kind != (#[trigger] expanded_rows(s, orgs)[j]).kind,
        forall|i: int, j: int| 0 <= i < expanded_rows(s, orgs).len() && 0 <= j < expanded_rows(s, orgs).len()
            && (#[trigger] expanded_rows(s, orgs)[i]).selected && (#[trigger] expanded_rows(s, orgs)[j]).selected
            ==> i == j,
{
    let rows = expanded_rows(s, orgs);
    let tree = if s.vault_tree_open { vault_tree(s, orgs) } else { Seq::empty() };
    let sends = if s.send_tree_open { seq![send_row(s, SendFilter::Text), send_row(s, SendFilter::File)] } else { Seq::<SidebarRow>::empty() };
    let tail = seq![
        item_row(s, NavSection::Generator),
        item_row(s, NavSection::Import),
        item_row(s, NavSection::Export),
        mode_toggle_row(),
    ];
    lemma_vault_tree_rows(s, orgs);
    lemma_expanded_highlight(s, orgs);
    let a = 1 + tree.len();
    let b = a + 1;
    let c = b + sends.len();
    assert forall|i: int, j: int| 0 <= i < j < rows.len() implies
        (#[trigger] rows[i]).kind != (#[trigger] rows[j]).kind by {
        if i == 0 {
            if j < a {
                assert(rows[j] == tree[j - 1]);
            } else if j == a {
            } else if j < c {
                assert(rows[j] == sends[j - b]);
            } else {
                assert(rows[j] == tail[j - c]);
            }
        } else if i < a {
            assert(rows[i] == tree[i - 1]);
            if j < a {
                assert(rows[j] == tree[j - 1]);
                assert(tree_filter(orgs, i - 1) != tree_filter(orgs, j - 1));
            } else if j == a {
            } else if j < c {
                assert(rows[j] == sends[j - b]);
            } else {
                assert(rows[j] == tail[j - c]);
            }
        } else if i == a {
            if j < c {
                assert(rows[j] == sends[j - b]);
            } else {
                assert(rows[j] == tail[j - c]);
            }
        } else if i < c {
            assert(rows[i] == sends[i - b]);
            if j < c {
                assert(rows[j] == sends[j - b]);
            } else {
                assert(rows[j] == tail[j - c]);
            }
        } else {
            assert(rows[i] == tail[i - c]);
            assert(rows[j] == tail[j - c]);
        }
    }
}

/// Both layouts end with the collapse / expand button; in the expanded
/// panel the two headers are the rows whose chevrons open and close the
/// vault and send trees, and no other row has a chevron.
pub proof fn lemma_sidebar_controls(s: SidebarState, orgs: Seq<OrganizationId>)
    ensures
        expanded_rows(s, orgs).last() == mode_toggle_row(),
        rail_rows(s).last() == mode_toggle_row(),
        mode_toggle_row().on_press == SidebarMessage::ToggleSidebarMode,
        expanded_rows(s, orgs)[0].on_toggle == Some(SidebarMessage::ToggleVaultTree),
        forall|i: int| 0 <= i < expanded_rows(s, orgs).len() ==>
            ((#[trigger] expanded_rows(s, orgs)[i]).on_toggle == Some(SidebarMessage::ToggleVaultTree)
                <==> expanded_rows(s, orgs)[i].kind is VaultHeader),
        forall|i: int| 0 <= i < expanded_rows(s, orgs).len() ==>
            ((#[trigger] expanded_rows(s, orgs)[i]).on_toggle == Some(SidebarMessage::ToggleSendTree)
                <==> expanded_rows(s, orgs)[i].kind is SendHeader),
        forall|i: int| 0 <= i < expanded_rows(s, orgs).len() ==>
            ((#[trigger] expanded_rows(s, orgs)[i]).on_toggle is None
                <==> !(expanded_rows(s, orgs)[i].kind is VaultHeader || expanded_rows(s, orgs)[i].kind is SendHeader)),
{
    let rows = expanded_rows(s, orgs);
    let tree = if s.vault_tree_open { vault_tree(s, orgs) } else { Seq::empty() };
    let sends = if s.send_tree_open { seq![send_row(s, SendFilter::Text), send_row(s, SendFilter::File)] } else { Seq::<SidebarRow>::empty() };
    let tail = seq![
        item_row(s, NavSection::Generator),
        item_row(s, NavSection::Import),
        item_row(s, NavSection::Export),
        mode_toggle_row(),
    ];
    assert forall|k: int| 0 <= k < tree.len() implies
        (#[trigger] tree[k]).on_toggle is None && tree[k].kind is Vault by {
        if s.vault_tree_open {
            let n = orgs.len() as int;
            if k == 0 {
            } else if k <= n {
                assert(tree[k] == vault_row(s, VaultFilter::Organization(orgs[k - 1])));
            } else {
                assert(tree[k] == seq![
                    vault_row(s, VaultFilter::Favorites),
                    vault_row(s, VaultFilter::Category(CipherType::Login)),
                    vault_row(s, VaultFilter::Category(CipherType::Card)),
                    vault_row(s, VaultFilter::Category(CipherType::Identity)),
                    vault_row(s, VaultFilter::Category(CipherType::SecureNote)),
                    vault_row(s, VaultFilter::Category(CipherType::SshKey)),
                    vault_row(s, VaultFilter::Archive),
                    vault_row(s, VaultFilter::Trash),
                ][k - 1 - n]);
            }
        }
    }
    assert forall|i: int| 0 <= i < rows.len() implies
        ((#[trigger] rows[i]).on_toggle == Some(SidebarMessage::ToggleVaultTree) <==> rows[i].kind is VaultHeader)
        && (rows[i].on_toggle == Some(SidebarMessage::ToggleSendTree) <==> rows[i].kind is SendHeader)
        && (rows[i].on_toggle is None <==> !(rows[i].kind is VaultHeader || rows[i].kind is SendHeader)) by {
        let a = 1 + tree.len();
        let b = a + 1;
        let c = b + sends.len();
        if i == 0 {
        } else if i < a {
            assert(rows[i] == tree[i - 1]);
        } else if i == a {
            assert(rows[i] == send_header_row(s));
        } else if i < c {
            assert(rows[i] == sends[i - b]);
        } else {
            assert(rows[i] == tail[i - c]);
        }
    }
}

} // verus!
