//! The native entry points and the calls made into them.

use vstd::prelude::*;

use crate::handle::NativeHandle;
use crate::text::NativeString;

verus! {

/// One of the thirteen entry points that the native library must export.
#[derive(Debug, Clone, Copy, PartialEq, Eq, Structural)]
pub enum EntryPoint {
    ConnectorNew,
    ConnectorDelete,
    ReaderNew,
    WriterNew,
    ReaderWait,
    WriterClear,
    Take,
    Read,
    WriterWrite,
    GetSamplesLength,
    GetJsonSample,
    SetJsonInstance,
    FreeString,
}

/// The number of entry points in the table.
pub const ENTRY_POINTS: usize = 13;

/// What an entry point hands back.
#[derive(Debug, Clone, Copy, PartialEq, Eq, Structural)]
pub enum Output {
    /// Nothing at all.
    Nothing,
    /// A handle; null where the native side failed.
    Handle,
    /// A return code of the native protocol.
    Code,
    /// A floating-point count.
    Count,
    /// A native string, to be given back through the entry point for that.
    Text,
}

impl EntryPoint {
    /// The entry points in the order in which the table resolves them.
    pub open spec fn table() -> Seq<EntryPoint> {
        seq![
            EntryPoint::ConnectorNew,
            EntryPoint::ConnectorDelete,
            EntryPoint::ReaderNew,
            EntryPoint::WriterNew,
            EntryPoint::ReaderWait,
            EntryPoint::WriterClear,
            EntryPoint::Take,
            EntryPoint::Read,
            EntryPoint::WriterWrite,
            EntryPoint::GetSamplesLength,
            EntryPoint::GetJsonSample,
            EntryPoint::SetJsonInstance,
            EntryPoint::FreeString,
        ]
    }

    /// The place of this entry point in the table.
    pub open spec fn spec_index(self) -> int {
        match self {
            EntryPoint::ConnectorNew => 0,
            EntryPoint::ConnectorDelete => 1,
            EntryPoint::ReaderNew => 2,
            EntryPoint::WriterNew => 3,
            EntryPoint::ReaderWait => 4,
            EntryPoint::WriterClear => 5,
            EntryPoint::Take => 6,
            EntryPoint::Read => 7,
            EntryPoint::WriterWrite => 8,
            EntryPoint::GetSamplesLength => 9,
            EntryPoint::GetJsonSample => 10,
            EntryPoint::SetJsonInstance => 11,
            EntryPoint::FreeString => 12,
        }
    }

    /// The name under which the native library exports this entry point.
    pub open spec fn spec_symbol(self) -> Seq<char> {
        match self {
            EntryPoint::ConnectorNew => "RTIDDSConnector_new"@,
            EntryPoint::ConnectorDelete => "RTIDDSConnector_delete"@,
            EntryPoint::ReaderNew => "RTIDDSConnector_getReader"@,
            EntryPoint::WriterNew => "RTIDDSConnector_getWriter"@,
            EntryPoint::ReaderWait => "RTIDDSConnectorReaders_waitForData"@,
            EntryPoint::WriterClear => "RTIDDSConnector_clear"@,
            EntryPoint::Take => "RTIDDSConnector_take"@,
            EntryPoint::Read => "RTIDDSConnector_read"@,
            EntryPoint::WriterWrite => "RTIDDSConnector_write"@,
            EntryPoint::GetSamplesLength => "RTIDDSConnector_getSamplesLength"@,
            EntryPoint::GetJsonSample => "RTIDDSConnector_getJSONSample"@,
            EntryPoint::SetJsonInstance => "RTIDDSConnector_setJSONInstance"@,
            EntryPoint::FreeString => "RTIDDSConnector_freeString"@,
        }
    }

    /// What this entry point hands back.
    pub open spec fn spec_output(self) -> Output {
        match self {
            EntryPoint::ConnectorNew | EntryPoint::ReaderNew | EntryPoint::WriterNew => {
                Output::Handle
            },
            EntryPoint::ReaderWait | EntryPoint::Take | EntryPoint::Read => Output::Code,
            EntryPoint::GetSamplesLength => Output::Count,
            EntryPoint::GetJsonSample => Output::Text,
            EntryPoint::ConnectorDelete
            | EntryPoint::WriterClear
            | EntryPoint::WriterWrite
            | EntryPoint::SetJsonInstance
            | EntryPoint::FreeString => Output::Nothing,
        }
    }

    /// What this entry point hands back.
    pub fn output(&self) -> (output: Output)
        ensures
            output == self.spec_output(),
    {
        match self {
            EntryPoint::ConnectorNew => Output::Handle,
            EntryPoint::ConnectorDelete => Output::Nothing,
            EntryPoint::ReaderNew => Output::Handle,
            EntryPoint::WriterNew => Output::Handle,
            EntryPoint::ReaderWait => Output::Code,
            EntryPoint::WriterClear => Output::Nothing,
            EntryPoint::Take => Output::Code,
            EntryPoint::Read => Output::Code,
            EntryPoint::WriterWrite => Output::Nothing,
            EntryPoint::GetSamplesLength => Output::Count,
            EntryPoint::GetJsonSample => Output::Text,
            EntryPoint::SetJsonInstance => Output::Nothing,
            EntryPoint::FreeString => Output::Nothing,
        }
    }

    /// The place of this entry point in the table.
    pub fn index(&self) -> (i: usize)
        ensures
            i == self.spec_index(),
            i < ENTRY_POINTS,
            Self::table()[i as int] == *self,
    {
        match self {
            EntryPoint::ConnectorNew => 0,
            EntryPoint::ConnectorDelete => 1,
            EntryPoint::ReaderNew => 2,
            EntryPoint::WriterNew => 3,
            EntryPoint::ReaderWait => 4,
            EntryPoint::WriterClear => 5,
            EntryPoint::Take => 6,
            EntryPoint::Read => 7,
            EntryPoint::WriterWrite => 8,
            EntryPoint::GetSamplesLength => 9,
            EntryPoint::GetJsonSample => 10,
            EntryPoint::SetJsonInstance => 11,
            EntryPoint::FreeString => 12,
        }
    }

    /// The entry point at a place of the table; `None` past its end.
    pub fn at(i: usize) -> (entry: Option<EntryPoint>)
        ensures
            entry == if i < ENTRY_POINTS {
                Some(Self::table()[i as int])
            } else {
                None
            },
    {
        match i {
            0 => Some(EntryPoint::ConnectorNew),
            1 => Some(EntryPoint::ConnectorDelete),
            2 => Some(EntryPoint::ReaderNew),
            3 => Some(EntryPoint::WriterNew),
            4 => Some(EntryPoint::ReaderWait),
            5 => Some(EntryPoint::WriterClear),
            6 => Some(EntryPoint::Take),
            7 => Some(EntryPoint::Read),
            8 => Some(EntryPoint::WriterWrite),
            9 => Some(EntryPoint::GetSamplesLength),
            10 => Some(EntryPoint::GetJsonSample),
            11 => Some(EntryPoint::SetJsonInstance),
            12 => Some(EntryPoint::FreeString),
            _ => None,
        }
    }

    /// The name under which the native library exports this entry point.
    pub fn symbol(&self) -> (name: &'static str)
        ensures
            name@ == self.spec_symbol(),
    {
        match self {
            EntryPoint::ConnectorNew => "RTIDDSConnector_new",
            EntryPoint::ConnectorDelete => "RTIDDSConnector_delete",
            EntryPoint::ReaderNew => "RTIDDSConnector_getReader",
            EntryPoint::WriterNew => "RTIDDSConnector_getWriter",
            EntryPoint::ReaderWait => "RTIDDSConnectorReaders_waitForData",
            EntryPoint::WriterClear => "RTIDDSConnector_clear",
            EntryPoint::Take => "RTIDDSConnector_take",
            EntryPoint::Read => "RTIDDSConnector_read",
            EntryPoint::WriterWrite => "RTIDDSConnector_write",
            EntryPoint::GetSamplesLength => "RTIDDSConnector_getSamplesLength",
            EntryPoint::GetJsonSample => "RTIDDSConnector_getJSONSample",
            EntryPoint::SetJsonInstance => "RTIDDSConnector_setJSONInstance",
            EntryPoint::FreeString => "RTIDDSConnector_freeString",
        }
    }

    /// The table holds every entry point once, at its own place.
    pub proof fn lemma_table_complete(entry: EntryPoint)
        ensures
            Self::table().len() == ENTRY_POINTS,
            0 <= entry.spec_index() < ENTRY_POINTS,
            Self::table()[entry.spec_index()] == entry,
            forall|i: int|
                0 <= i < ENTRY_POINTS && Self::table()[i] == entry ==> i == entry.spec_index(),
    {
    }
}

/// One call into the native library, with everything that is handed to it.
/// A handle goes in as it was given out; a text goes in as a null-terminated
/// byte string.
#[derive(Debug, PartialEq, Eq)]
pub enum NativeCall {
    /// Create a connector. `reserved` is always 0.
    ConnectorNew { config_name: NativeString, config_file: NativeString, reserved: i32 },
    /// Release a connector and all that belongs to it.
    ConnectorDelete { connector: NativeHandle },
    /// Look a reader up by name.
    ReaderNew { connector: NativeHandle, entity_name: NativeString },
    /// Look a writer up by name.
    WriterNew { connector: NativeHandle, entity_name: NativeString },
    /// Block until the reader has data or the time is up; -1 waits without
    /// limit.
    ReaderWait { reader: NativeHandle, timeout_millis: i32 },
    /// Reset the writer's staged instance.
    WriterClear { connector: NativeHandle, entity_name: NativeString },
    /// Move the received samples into the reader's buffer.
    Take { connector: NativeHandle, entity_name: NativeString },
    /// Copy the received samples into the reader's buffer.
    Read { connector: NativeHandle, entity_name: NativeString },
    /// Publish the writer's staged instance. `params` is the native
    /// parameter text; `None` goes in as a null pointer.
    WriterWrite {
        connector: NativeHandle,
        entity_name: NativeString,
        params: Option<NativeString>,
    },
    /// Ask how many samples the reader's buffer holds.
    GetSamplesLength { connector: NativeHandle, entity_name: NativeString },
    /// Ask for one sample of the reader's buffer as JSON. The index counts
    /// from 1.
    GetJsonSample { connector: NativeHandle, entity_name: NativeString, index: i32 },
    /// Stage an instance from JSON.
    SetJsonInstance { connector: NativeHandle, entity_name: NativeString, json: NativeString },
    /// Give back a native string that an earlier call returned.
    FreeString { string: NativeHandle },
}

/// A [`NativeCall`] with its texts as byte sequences.
pub enum NativeCallView {
    ConnectorNew { config_name: Seq<u8>, config_file: Seq<u8>, reserved: i32 },
    ConnectorDelete { connector: NativeHandle },
    ReaderNew { connector: NativeHandle, entity_name: Seq<u8> },
    WriterNew { connector: NativeHandle, entity_name: Seq<u8> },
    ReaderWait { reader: NativeHandle, timeout_millis: i32 },
    WriterClear { connector: NativeHandle, entity_name: Seq<u8> },
    Take { connector: NativeHandle, entity_name: Seq<u8> },
    Read { connector: NativeHandle, entity_name: Seq<u8> },
    WriterWrite { connector: NativeHandle, entity_name: Seq<u8>, params: Option<Seq<u8>> },
    GetSamplesLength { connector: NativeHandle, entity_name: Seq<u8> },
    GetJsonSample { connector: NativeHandle, entity_name: Seq<u8>, index: i32 },
    SetJsonInstance { connector: NativeHandle, entity_name: Seq<u8>, json: Seq<u8> },
    FreeString { string: NativeHandle },
}

impl View for NativeCall {
    type V = NativeCallView;

    open spec fn view(&self) -> NativeCallView {
        match *self {
            NativeCall::ConnectorNew { config_name, config_file, reserved } => {
                NativeCallView::ConnectorNew {
                    config_name: config_name@,
                    config_file: config_file@,
                    reserved,
                }
            },
            NativeCall::ConnectorDelete { connector } => NativeCallView::ConnectorDelete {
                connector,
            },
            NativeCall::ReaderNew { connector, entity_name } => NativeCallView::ReaderNew {
                connector,
                entity_name: entity_name@,
            },
            NativeCall::WriterNew { connector, entity_name } => NativeCallView::WriterNew {
                connector,
                entity_name: entity_name@,
            },
            NativeCall::ReaderWait { reader, timeout_millis } => NativeCallView::ReaderWait {
                reader,
                timeout_millis,
            },
            NativeCall::WriterClear { connector, entity_name } => NativeCallView::WriterClear {
                connector,
                entity_name: entity_name@,
            },
            NativeCall::Take { connector, entity_name } => NativeCallView::Take {
                connector,
                entity_name: entity_name@,
            },
            NativeCall::Read { connector, entity_name } => NativeCallView::Read {
                connector,
                entity_name: entity_name@,
            },
            NativeCall::WriterWrite { connector, entity_name, params } => {
                NativeCallView::WriterWrite {
                    connector,
                    entity_name: entity_name@,
                    params: match params {
                        Some(text) => Some(text@),
                        None => None,
                    },
                }
            },
            NativeCall::GetSamplesLength { connector, entity_name } => {
                NativeCallView::GetSamplesLength { connector, entity_name: entity_name@ }
            },
            NativeCall::GetJsonSample { connector, entity_name, index } => {
                NativeCallView::GetJsonSample { connector, entity_name: entity_name@, index }
            },
            NativeCall::SetJsonInstance { connector, entity_name, json } => {
                NativeCallView::SetJsonInstance {
                    connector,
                    entity_name: entity_name@,
                    json: json@,
                }
            },
            NativeCall::FreeString { string } => NativeCallView::FreeString { string },
        }
    }
}

impl NativeCallView {
    /// The entry point that the call goes to.
    pub open spec fn entry_point(self) -> EntryPoint {
        match self {
            NativeCallView::ConnectorNew { .. } => EntryPoint::ConnectorNew,
            NativeCallView::ConnectorDelete { .. } => EntryPoint::ConnectorDelete,
            NativeCallView::ReaderNew { .. } => EntryPoint::ReaderNew,
            NativeCallView::WriterNew { .. } => EntryPoint::WriterNew,
            NativeCallView::ReaderWait { .. } => EntryPoint::ReaderWait,
            NativeCallView::WriterClear { .. } => EntryPoint::WriterClear,
            NativeCallView::Take { .. } => EntryPoint::Take,
            NativeCallView::Read { .. } => EntryPoint::Read,
            NativeCallView::WriterWrite { .. } => EntryPoint::WriterWrite,
            NativeCallView::GetSamplesLength { .. } => EntryPoint::GetSamplesLength,
            NativeCallView::GetJsonSample { .. } => EntryPoint::GetJsonSample,
            NativeCallView::SetJsonInstance { .. } => EntryPoint::SetJsonInstance,
            NativeCallView::FreeString { .. } => EntryPoint::FreeString,
        }
    }
}

impl NativeCall {
    /// The entry point that the call goes to.
    pub fn entry_point(&self) -> (entry: EntryPoint)
        ensures
            entry == self@.entry_point(),
    {
        match self {
            NativeCall::ConnectorNew { .. } => EntryPoint::ConnectorNew,
            NativeCall::ConnectorDelete { .. } => EntryPoint::ConnectorDelete,
            NativeCall::ReaderNew { .. } => EntryPoint::ReaderNew,
            NativeCall::WriterNew { .. } => EntryPoint::WriterNew,
            NativeCall::ReaderWait { .. } => EntryPoint::ReaderWait,
            NativeCall::WriterClear { .. } => EntryPoint::WriterClear,
            NativeCall::Take { .. } => EntryPoint::Take,
            NativeCall::Read { .. } => EntryPoint::Read,
            NativeCall::WriterWrite { .. } => EntryPoint::WriterWrite,
            NativeCall::GetSamplesLength { .. } => EntryPoint::GetSamplesLength,
            NativeCall::GetJsonSample { .. } => EntryPoint::GetJsonSample,
            NativeCall::SetJsonInstance { .. } => EntryPoint::SetJsonInstance,
            NativeCall::FreeString { .. } => EntryPoint::FreeString,
        }
    }
}

} // verus!
