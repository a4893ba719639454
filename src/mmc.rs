use vstd::prelude::*;

use crate::registry::NodeRegistry;

verus! {

/// The notifications that the host sends about a node.
#[derive(Debug, Clone, Copy, PartialEq, Eq, Structural)]
pub enum MmcNotifyType {
    Activate,
    AddImages,
    BtnClick,
    ColumnClick,
    CutOrMove,
    DblClick,
    Delete,
    DeselectAll,
    Expand,
    MenuBtnClick,
    Minimized,
    Paste,
    PropertyChange,
    QueryPaste,
    Refresh,
    RemoveChildren,
    Rename,
    Select,
    Show,
    ViewChange,
    SnapinHelp,
    ContextHelp,
    InitOcx,
    FilterChange,
    FilterBtnClick,
    RestoreView,
    Print,
    Preload,
    Listpad,
    ExpandSync,
    ColumnsChanged,
    CanPasteOutOfProc,
    /// A code that names none of the notifications above.
    Unknown(u32),
}

/// The notification that a numeric event code names.
pub open spec fn notify_of(code: u32) -> MmcNotifyType {
    match code {
        0x8001 => MmcNotifyType::Activate,
        0x8002 => MmcNotifyType::AddImages,
        0x8003 => MmcNotifyType::BtnClick,
        0x8005 => MmcNotifyType::ColumnClick,
        0x8007 => MmcNotifyType::CutOrMove,
        0x8008 => MmcNotifyType::DblClick,
        0x8009 => MmcNotifyType::Delete,
        0x800A => MmcNotifyType::DeselectAll,
        0x800B => MmcNotifyType::Expand,
        0x800D => MmcNotifyType::MenuBtnClick,
        0x800E => MmcNotifyType::Minimized,
        0x800F => MmcNotifyType::Paste,
        0x8010 => MmcNotifyType::PropertyChange,
        0x8011 => MmcNotifyType::QueryPaste,
        0x8012 => MmcNotifyType::Refresh,
        0x8013 => MmcNotifyType::RemoveChildren,
        0x8014 => MmcNotifyType::Rename,
        0x8015 => MmcNotifyType::Select,
        0x8016 => MmcNotifyType::Show,
        0x8017 => MmcNotifyType::ViewChange,
        0x8018 => MmcNotifyType::SnapinHelp,
        0x8019 => MmcNotifyType::ContextHelp,
        0x801A => MmcNotifyType::InitOcx,
        0x801B => MmcNotifyType::FilterChange,
        0x801C => MmcNotifyType::FilterBtnClick,
        0x801D => MmcNotifyType::RestoreView,
        0x801E => MmcNotifyType::Print,
        0x801F => MmcNotifyType::Preload,
        0x8020 => MmcNotifyType::Listpad,
        0x8021 => MmcNotifyType::ExpandSync,
        0x8022 => MmcNotifyType::ColumnsChanged,
        0x8023 => MmcNotifyType::CanPasteOutOfProc,
        _ => MmcNotifyType::Unknown(code),
    }
}

/// The numeric event code of a notification.
pub open spec fn notify_code(t: MmcNotifyType) -> u32 {
    match t {
        MmcNotifyType::Activate => 0x8001,
        MmcNotifyType::AddImages => 0x8002,
        MmcNotifyType::BtnClick => 0x8003,
        MmcNotifyType::ColumnClick => 0x8005,
        MmcNotifyType::CutOrMove => 0x8007,
        MmcNotifyType::DblClick => 0x8008,
        MmcNotifyType::Delete => 0x8009,
        MmcNotifyType::DeselectAll => 0x800A,
        MmcNotifyType::Expand => 0x800B,
        MmcNotifyType::MenuBtnClick => 0x800D,
        MmcNotifyType::Minimized => 0x800E,
        MmcNotifyType::Paste => 0x800F,
        MmcNotifyType::PropertyChange => 0x8010,
        MmcNotifyType::QueryPaste => 0x8011,
        MmcNotifyType::Refresh => 0x8012,
        MmcNotifyType::RemoveChildren => 0x8013,
        MmcNotifyType::Rename => 0x8014,
        MmcNotifyType::Select => 0x8015,
        MmcNotifyType::Show => 0x8016,
        MmcNotifyType::ViewChange => 0x8017,
        MmcNotifyType::SnapinHelp => 0x8018,
        MmcNotifyType::ContextHelp => 0x8019,
        MmcNotifyType::InitOcx => 0x801A,
        MmcNotifyType::FilterChange => 0x801B,
        MmcNotifyType::FilterBtnClick => 0x801C,
        MmcNotifyType::RestoreView => 0x801D,
        MmcNotifyType::Print => 0x801E,
        MmcNotifyType::Preload => 0x801F,
        MmcNotifyType::Listpad => 0x8020,
        MmcNotifyType::ExpandSync => 0x8021,
        MmcNotifyType::ColumnsChanged => 0x8022,
        MmcNotifyType::CanPasteOutOfProc => 0x8023,
        MmcNotifyType::Unknown(c) => c,
    }
}

impl MmcNotifyType {
    /// The notification that `code` names; `Unknown` for any other code.
    pub fn from_code(code: u32) -> (r: MmcNotifyType)
        ensures
            r == notify_of(code),
    {
        match code {
            0x8001 => MmcNotifyType::Activate,
            0x8002 => MmcNotifyType::AddImages,
            0x8003 => MmcNotifyType::BtnClick,
            0x8005 => MmcNotifyType::ColumnClick,
            0x8007 => MmcNotifyType::CutOrMove,
            0x8008 => MmcNotifyType::DblClick,
            0x8009 => MmcNotifyType::Delete,
            0x800A => MmcNotifyType::DeselectAll,
            0x800B => MmcNotifyType::Expand,
            0x800D => MmcNotifyType::MenuBtnClick,
            0x800E => MmcNotifyType::Minimized,
            0x800F => MmcNotifyType::Paste,
            0x8010 => MmcNotifyType::PropertyChange,
            0x8011 => MmcNotifyType::QueryPaste,
            0x8012 => MmcNotifyType::Refresh,
            0x8013 => MmcNotifyType::RemoveChildren,
            0x8014 => MmcNotifyType::Rename,
            0x8015 => MmcNotifyType::Select,
            0x8016 => MmcNotifyType::Show,
            0x8017 => MmcNotifyType::ViewChange,
            0x8018 => MmcNotifyType::SnapinHelp,
            0x8019 => MmcNotifyType::ContextHelp,
            0x801A => MmcNotifyType::InitOcx,
            0x801B => MmcNotifyType::FilterChange,
            0x801C => MmcNotifyType::FilterBtnClick,
            0x801D => MmcNotifyType::RestoreView,
            0x801E => MmcNotifyType::Print,
            0x801F => MmcNotifyType::Preload,
            0x8020 => MmcNotifyType::Listpad,
            0x8021 => MmcNotifyType::ExpandSync,
            0x8022 => MmcNotifyType::ColumnsChanged,
            0x8023 => MmcNotifyType::CanPasteOutOfProc,
            _ => MmcNotifyType::Unknown(code),
        }
    }

    /// The numeric event code of this notification.
    pub fn code(&self) -> (r: u32)
        ensures
            r == notify_code(*self),
    {
        match self {
            MmcNotifyType::Activate => 0x8001,
            MmcNotifyType::AddImages => 0x8002,
            MmcNotifyType::BtnClick => 0x8003,
            MmcNotifyType::ColumnClick => 0x8005,
            MmcNotifyType::CutOrMove => 0x8007,
            MmcNotifyType::DblClick => 0x8008,
            MmcNotifyType::Delete => 0x8009,
            MmcNotifyType::DeselectAll => 0x800A,
            MmcNotifyType::Expand => 0x800B,
            MmcNotifyType::MenuBtnClick => 0x800D,
            MmcNotifyType::Minimized => 0x800E,
            MmcNotifyType::Paste => 0x800F,
            MmcNotifyType::PropertyChange => 0x8010,
            MmcNotifyType::QueryPaste => 0x8011,
            MmcNotifyType::Refresh => 0x8012,
            MmcNotifyType::RemoveChildren => 0x8013,
            MmcNotifyType::Rename => 0x8014,
            MmcNotifyType::Select => 0x8015,
            MmcNotifyType::Show => 0x8016,
            MmcNotifyType::ViewChange => 0x8017,
            MmcNotifyType::SnapinHelp => 0x8018,
            MmcNotifyType::ContextHelp => 0x8019,
            MmcNotifyType::InitOcx => 0x801A,
            MmcNotifyType::FilterChange => 0x801B,
            MmcNotifyType::FilterBtnClick => 0x801C,
            MmcNotifyType::RestoreView => 0x801D,
            MmcNotifyType::Print => 0x801E,
            MmcNotifyType::Preload => 0x801F,
            MmcNotifyType::Listpad => 0x8020,
            MmcNotifyType::ExpandSync => 0x8021,
            MmcNotifyType::ColumnsChanged => 0x8022,
            MmcNotifyType::CanPasteOutOfProc => 0x8023,
            MmcNotifyType::Unknown(c) => *c,
        }
    }
}

/// The views that the host asks a data object for.
#[derive(Debug, Clone, Copy, PartialEq, Eq, Structural)]
pub enum MmcDataObjectType {
    Scope,
    Result,
    SnapinManager,
    Uninitialized,
    /// A code that names none of the views above.
    Unknown(i32),
}

/// The view that a numeric code names.
pub open spec fn data_object_of(code: i32) -> MmcDataObjectType {
    match code {
        0x8000 => MmcDataObjectType::Scope,
        0x8001 => MmcDataObjectType::Result,
        0x8002 => MmcDataObjectType::SnapinManager,
        0xFFFF => MmcDataObjectType::Uninitialized,
        _ => MmcDataObjectType::Unknown(code),
    }
}

/// The numeric code of a view.
pub open spec fn data_object_code(t: MmcDataObjectType) -> i32 {
    match t {
        MmcDataObjectType::Scope => 0x8000,
        MmcDataObjectType::Result => 0x8001,
        MmcDataObjectType::SnapinManager => 0x8002,
        MmcDataObjectType::Uninitialized => 0xFFFF,
        MmcDataObjectType::Unknown(c) => c,
    }
}

impl MmcDataObjectType {
    /// The view that `code` names; `Unknown` for any other code.
    pub fn from_code(code: i32) -> (r: MmcDataObjectType)
        ensures
            r == data_object_of(code),
    {
        match code {
            0x8000 => MmcDataObjectType::Scope,
            0x8001 => MmcDataObjectType::Result,
            0x8002 => MmcDataObjectType::SnapinManager,
            0xFFFF => MmcDataObjectType::Uninitialized,
            _ => MmcDataObjectType::Unknown(code),
        }
    }

    /// The numeric code of this view.
    pub fn code(&self) -> (r: i32)
        ensures
            r == data_object_code(*self),
    {
        match self {
            MmcDataObjectType::Scope => 0x8000,
            MmcDataObjectType::Result => 0x8001,
            MmcDataObjectType::SnapinManager => 0x8002,
            MmcDataObjectType::Uninitialized => 0xFFFF,
            MmcDataObjectType::Unknown(c) => *c,
        }
    }
}

/// Mask of a scope-item insertion: the host asks back for the display
/// string (0x2), the item carries its cookie (0x20) and says whether it has
/// children (0x40).
pub const SCOPE_INSERT_MASK: u32 = 0x62;

/// An item that the host is asked to insert into its scope tree.
#[derive(Debug, Clone, Copy, PartialEq, Eq, Structural)]
pub struct ScopeInsert {
    pub mask: u32,
    /// The cookie of the node that the item shows.
    pub cookie: isize,
    /// The host's handle of the item to insert under.
    pub relative_id: isize,
}

impl NodeRegistry {
    /// The items to insert on a notification about the item `parent`: on
    /// `Expand`, one for each node, the root aside, that is not yet in the
    /// host's tree, in increasing cookie order; else none.
    pub fn notify(&self, event: MmcNotifyType, parent: isize) -> (r: Vec<ScopeInsert>)
        requires
            self.wf(),
        ensures
            event != MmcNotifyType::Expand ==> r@.len() == 0,
            event == MmcNotifyType::Expand ==> {
                &&& forall|i: int| 0 <= i < r@.len() ==> #[trigger] r@[i].mask == SCOPE_INSERT_MASK
                    && r@[i].relative_id == parent
                &&& forall|i: int, j: int| 0 <= i < j < r@.len() ==> r@[i].cookie < r@[j].cookie
                &&& forall|c: isize| (exists|i: int| 0 <= i < r@.len() && #[trigger] r@[i].cookie == c)
                    <==> self.unpositioned(c)
            },
    {
        let mut r: Vec<ScopeInsert> = Vec::new();
        if event != MmcNotifyType::Expand {
            return r;
        }
        let cookies = self.for_each_unpositioned();
        let mut i: usize = 0;
        while i < cookies.len()
            invariant
                i <= cookies@.len(),
                r@.len() == i,
                forall|j: int| 0 <= j < i ==> #[trigger] r@[j] == (ScopeInsert {
                    mask: SCOPE_INSERT_MASK,
                    cookie: cookies@[j],
                    relative_id: parent,
                }),
            decreases cookies@.len() - i,
        {
            r.push(ScopeInsert { mask: SCOPE_INSERT_MASK, cookie: cookies[i], relative_id: parent });
            i = i + 1;
        }
        assert forall|c: isize| (exists|i: int| 0 <= i < r@.len() && #[trigger] r@[i].cookie == c)
            <==> self.unpositioned(c) by {
            if self.unpositioned(c) {
                assert(cookies@.contains(c));
                let k = choose|k: int| 0 <= k < cookies@.len() && cookies@[k] == c;
                assert(r@[k].cookie == c);
            }
            if exists|i: int| 0 <= i < r@.len() && #[trigger] r@[i].cookie == c {
                let k = choose|k: int| 0 <= k < r@.len() && #[trigger] r@[k].cookie == c;
                assert(cookies@[k] == c);
                assert(cookies@.contains(c));
            }
        }
        r
    }
}

/// Reading a notification back from its event code gives the code again.
pub proof fn lemma_notify_code_round_trip(code: u32)
    ensures
        notify_code(notify_of(code)) == code,
{
}

/// Reading a view back from its code gives the code again.
pub proof fn lemma_data_object_code_round_trip(code: i32)
    ensures
        data_object_code(data_object_of(code)) == code,
{
}

} // verus!
