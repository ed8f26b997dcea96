use connext::call::EntryPoint;
use connext::call::Output;
use connext::call::ENTRY_POINTS;
use connext::error::Error;
use connext::ConnextLibrary;

const ALL: [EntryPoint; 13] = [
    EntryPoint::ConnectorNew,
    EntryPoint::ConnectorDelete,
    EntryPoint::ReaderNew,
    EntryPoint::WriterNew,
    EntryPoint::ReaderWait,
    EntryPoint::WriterClear,
    EntryPoint::Take,
    EntryPoint::Read,
    EntryPoint::WriterWrite,
    EntryPoint::GetSamplesLength,
    EntryPoint::GetJsonSample,
    EntryPoint::SetJsonInstance,
    EntryPoint::FreeString,
];

// Creates a new instance of the ConnextLibrary with every symbol of the
// connector library resolved.
#[test]
fn test_load_symbols() {
    let library = ConnextLibrary::new(&[true; 13]).unwrap();
    assert_eq!(library.entry_points(), &ALL[..]);
}

#[test]
fn table_has_thirteen_entry_points() {
    assert_eq!(ENTRY_POINTS, 13);
    for (i, entry) in ALL.iter().enumerate() {
        assert_eq!(entry.index(), i);
        assert_eq!(EntryPoint::at(i), Some(*entry));
    }
    assert_eq!(EntryPoint::at(13), None);
    assert_eq!(EntryPoint::at(usize::MAX), None);
}

#[test]
fn entry_points_have_their_native_names() {
    let names: Vec<&str> = ALL.iter().map(|entry| entry.symbol()).collect();
    assert_eq!(
        names,
        vec![
            "RTIDDSConnector_new",
            "RTIDDSConnector_delete",
            "RTIDDSConnector_getReader",
            "RTIDDSConnector_getWriter",
            "RTIDDSConnectorReaders_waitForData",
            "RTIDDSConnector_clear",
            "RTIDDSConnector_take",
            "RTIDDSConnector_read",
            "RTIDDSConnector_write",
            "RTIDDSConnector_getSamplesLength",
            "RTIDDSConnector_getJSONSample",
            "RTIDDSConnector_setJSONInstance",
            "RTIDDSConnector_freeString",
        ]
    );
}

#[test]
fn a_missing_symbol_fails_the_whole_table() {
    for missing in 0..13 {
        let mut found = [true; 13];
        found[missing] = false;
        assert_eq!(
            ConnextLibrary::new(&found).unwrap_err(),
            Error::Resolution { symbol: ALL[missing] }
        );
    }
}

#[test]
fn the_first_missing_symbol_is_named() {
    let mut found = [true; 13];
    found[4] = false;
    found[9] = false;
    found[12] = false;
    assert_eq!(
        ConnextLibrary::new(&found).unwrap_err(),
        Error::Resolution { symbol: EntryPoint::ReaderWait }
    );
    assert_eq!(
        ConnextLibrary::new(&[false; 13]).unwrap_err(),
        Error::Resolution { symbol: EntryPoint::ConnectorNew }
    );
}

#[test]
fn a_short_list_of_lookups_misses_what_it_leaves_out() {
    assert_eq!(
        ConnextLibrary::new(&[]).unwrap_err(),
        Error::Resolution { symbol: EntryPoint::ConnectorNew }
    );
    assert_eq!(
        ConnextLibrary::new(&[true; 12]).unwrap_err(),
        Error::Resolution { symbol: EntryPoint::FreeString }
    );
    assert!(ConnextLibrary::new(&[true; 14]).is_ok());
}

#[test]
fn resolution_errors_are_neither_expected_nor_local() {
    let error = ConnextLibrary::new(&[]).unwrap_err();
    assert!(!error.is_expected());
    assert!(!error.is_local());
}

#[test]
fn entry_points_hand_back_what_the_native_interface_says() {
    let outputs: Vec<Output> = ALL.iter().map(|entry| entry.output()).collect();
    assert_eq!(
        outputs,
        vec![
            Output::Handle,
            Output::Nothing,
            Output::Handle,
            Output::Handle,
            Output::Code,
            Output::Nothing,
            Output::Code,
            Output::Code,
            Output::Nothing,
            Output::Count,
            Output::Text,
            Output::Nothing,
            Output::Nothing,
        ]
    );
}
