use connext::call::EntryPoint;
use connext::call::NativeCall;
use connext::connector::Connector;
use connext::entity::Entity as Named;
use connext::error::Error;
use connext::handle::NativeHandle;
use connext::reader::Reader;
use connext::reader::ReturnCode;
use connext::text::NativeString;
use connext::writer::Writer;
use connext::ConnextLibrary;
use connext::Entity;
use connext::Operation;

const CONFIG: &str = "MyParticipantLibrary::MyParticipant";
const FILE: &str = "ShapeExample.xml";
const READER: &str = "MySubscriber::MySquareReader";
const WRITER: &str = "MyPublisher::MySquareWriter";

fn library() -> ConnextLibrary {
    ConnextLibrary::new(&[true; 13]).unwrap()
}

fn native(text: &str) -> NativeString {
    NativeString::new(text).unwrap()
}

fn handle(raw: isize) -> NativeHandle {
    NativeHandle::from_raw(raw)
}

#[test]
fn a_handle_keeps_its_value() {
    assert_eq!(handle(7).raw(), 7);
    assert_eq!(handle(-7).raw(), -7);
    assert_eq!(handle(isize::MAX).raw(), isize::MAX);
    assert!(handle(0).is_null());
    assert!(!handle(1).is_null());
    assert!(!handle(-1).is_null());
    assert_eq!(handle(3), handle(3));
    assert_ne!(handle(3), handle(4));
}

#[test]
fn the_create_call_takes_name_file_and_zero() {
    assert_eq!(
        Connector::new_call(CONFIG, FILE),
        Ok(NativeCall::ConnectorNew {
            config_name: native(CONFIG),
            config_file: native(FILE),
            reserved: 0,
        })
    );
}

#[test]
fn the_create_call_refuses_a_nul() {
    assert_eq!(Connector::new_call("My\0Participant", FILE), Err(Error::Encoding { position: 2 }));
    assert_eq!(Connector::new_call(CONFIG, "\0"), Err(Error::Encoding { position: 0 }));
    assert_eq!(Connector::new_call("a\0", "\0"), Err(Error::Encoding { position: 1 }));
}

#[test]
fn a_handle_other_than_null_gives_a_connector() {
    let library = library();
    let connector = Connector::new(&library, CONFIG, FILE, handle(42)).unwrap();
    assert_eq!(connector.handle(), handle(42));
    assert_eq!(connector.config_name_str(), CONFIG);
    assert_eq!(connector.entity_name(), native(CONFIG));
    assert!(std::ptr::eq(connector.library(), &library));
    assert_eq!(Connector::entity_type(), Entity::Participant);
}

#[test]
fn the_null_handle_gives_a_creation_error_with_the_name() {
    let library = library();
    assert_eq!(
        Connector::new(&library, CONFIG, FILE, handle(0)).unwrap_err(),
        Error::Creation { entity: Entity::Participant, name: CONFIG.to_string() }
    );
}

#[test]
fn create_has_no_third_outcome() {
    let library = library();
    for raw in [isize::MIN, -1, 0, 1, 2, isize::MAX] {
        match Connector::new(&library, CONFIG, FILE, handle(raw)) {
            Ok(connector) => {
                assert_ne!(raw, 0);
                assert_eq!(connector.handle().raw(), raw);
            }
            Err(error) => {
                assert_eq!(raw, 0);
                assert_eq!(
                    error,
                    Error::Creation { entity: Entity::Participant, name: CONFIG.to_string() }
                );
            }
        }
    }
}

#[test]
fn a_connector_is_not_made_from_texts_that_do_not_encode() {
    let library = library();
    assert_eq!(
        Connector::new(&library, "a\0", FILE, handle(1)).unwrap_err(),
        Error::Encoding { position: 1 }
    );
    assert_eq!(
        Connector::new(&library, CONFIG, "ab\0", handle(1)).unwrap_err(),
        Error::Encoding { position: 2 }
    );
    assert_eq!(
        Connector::new(&library, "\0", "ab\0", handle(0)).unwrap_err(),
        Error::Encoding { position: 0 }
    );
}

#[test]
fn connectors_are_equal_by_handle() {
    let library = library();
    let a = Connector::new(&library, CONFIG, FILE, handle(5)).unwrap();
    let b = Connector::new(&library, "Other::Participant", FILE, handle(5)).unwrap();
    let c = Connector::new(&library, CONFIG, FILE, handle(6)).unwrap();
    assert!(a == b);
    assert!(a != c);
}

#[test]
fn destroying_a_connector_releases_its_handle() {
    let library = library();
    let connector = Connector::new(&library, CONFIG, FILE, handle(42)).unwrap();
    let call = connector.destroy();
    assert_eq!(call, NativeCall::ConnectorDelete { connector: handle(42) });
    assert_eq!(call.entry_point(), EntryPoint::ConnectorDelete);
}

#[test]
fn a_connector_is_destroyed_after_its_readers_and_writers() {
    let library = library();
    let connector = Connector::new(&library, CONFIG, FILE, handle(42)).unwrap();
    {
        let reader = Reader::new(&connector, READER, handle(1)).unwrap();
        let writer = Writer::new(&connector, WRITER, handle(2)).unwrap();
        assert_eq!(reader.connector().handle(), handle(42));
        assert_eq!(writer.connector().handle(), handle(42));
    }
    assert_eq!(connector.destroy(), NativeCall::ConnectorDelete { connector: handle(42) });
}

#[test]
fn the_writer_lookup_takes_the_connector_and_the_name() {
    let library = library();
    let connector = Connector::new(&library, CONFIG, FILE, handle(42)).unwrap();
    assert_eq!(
        Writer::new_call(&connector, WRITER),
        Ok(NativeCall::WriterNew { connector: handle(42), entity_name: native(WRITER) })
    );
    assert_eq!(Writer::new_call(&connector, "W\0"), Err(Error::Encoding { position: 1 }));
}

#[test]
fn a_writer_is_made_from_a_handle_other_than_null() {
    let library = library();
    let connector = Connector::new(&library, CONFIG, FILE, handle(42)).unwrap();
    let writer = Writer::new(&connector, WRITER, handle(9)).unwrap();
    assert_eq!(writer.handle(), handle(9));
    assert_eq!(writer.entity_name_str(), WRITER);
    assert_eq!(writer.entity_name(), native(WRITER));
    assert_eq!(Writer::entity_type(), Entity::Writer);
    assert_eq!(
        Writer::new(&connector, WRITER, handle(0)).unwrap_err(),
        Error::Creation { entity: Entity::Writer, name: WRITER.to_string() }
    );
    assert_eq!(
        Writer::new(&connector, "\0", handle(9)).unwrap_err(),
        Error::Encoding { position: 0 }
    );
}

#[test]
fn writers_are_equal_by_handle() {
    let library = library();
    let connector = Connector::new(&library, CONFIG, FILE, handle(42)).unwrap();
    let a = Writer::new(&connector, WRITER, handle(9)).unwrap();
    let b = Writer::new(&connector, "Other::Writer", handle(9)).unwrap();
    let c = Writer::new(&connector, WRITER, handle(10)).unwrap();
    assert!(a == b);
    assert!(a != c);
}

#[test]
fn write_goes_out_without_parameters() {
    let library = library();
    let connector = Connector::new(&library, CONFIG, FILE, handle(42)).unwrap();
    let writer = Writer::new(&connector, WRITER, handle(9)).unwrap();
    let call = connector.write(&writer);
    assert_eq!(
        call,
        NativeCall::WriterWrite {
            connector: handle(42),
            entity_name: native(WRITER),
            params: None,
        }
    );
    assert_eq!(call.entry_point(), EntryPoint::WriterWrite);
}

#[test]
fn clear_names_the_writer() {
    let library = library();
    let connector = Connector::new(&library, CONFIG, FILE, handle(42)).unwrap();
    let writer = Writer::new(&connector, WRITER, handle(9)).unwrap();
    let call = connector.clear(&writer);
    assert_eq!(
        call,
        NativeCall::WriterClear { connector: handle(42), entity_name: native(WRITER) }
    );
    assert_eq!(call.entry_point(), EntryPoint::WriterClear);
}

#[test]
fn set_json_instance_hands_the_text_over() {
    let library = library();
    let connector = Connector::new(&library, CONFIG, FILE, handle(42)).unwrap();
    let writer = Writer::new(&connector, WRITER, handle(9)).unwrap();
    let call = connector.set_json_instance(&writer, "{\"x\":1}").unwrap();
    assert_eq!(
        call,
        NativeCall::SetJsonInstance {
            connector: handle(42),
            entity_name: native(WRITER),
            json: native("{\"x\":1}"),
        }
    );
    assert_eq!(call.entry_point(), EntryPoint::SetJsonInstance);
}

#[test]
fn set_json_instance_refuses_a_nul() {
    let library = library();
    let connector = Connector::new(&library, CONFIG, FILE, handle(42)).unwrap();
    let writer = Writer::new(&connector, WRITER, handle(9)).unwrap();
    assert_eq!(
        connector.set_json_instance(&writer, "{\"x\":\0}"),
        Err(Error::Encoding { position: 5 })
    );
}

#[test]
fn take_and_read_name_the_reader() {
    let library = library();
    let connector = Connector::new(&library, CONFIG, FILE, handle(42)).unwrap();
    let reader = Reader::new(&connector, READER, handle(7)).unwrap();
    assert_eq!(
        connector.take_call(&reader),
        NativeCall::Take { connector: handle(42), entity_name: native(READER) }
    );
    assert_eq!(
        connector.read_call(&reader),
        NativeCall::Read { connector: handle(42), entity_name: native(READER) }
    );
    assert_eq!(connector.take_call(&reader).entry_point(), EntryPoint::Take);
    assert_eq!(connector.read_call(&reader).entry_point(), EntryPoint::Read);
}

#[test]
fn take_and_read_classify_the_return_code() {
    let library = library();
    let connector = Connector::new(&library, CONFIG, FILE, handle(42)).unwrap();
    let reader = Reader::new(&connector, READER, handle(7)).unwrap();
    assert_eq!(connector.take(&reader, 0), Ok(()));
    assert_eq!(connector.read(&reader, 0), Ok(()));
    assert_eq!(
        connector.take(&reader, 11),
        Err(Error::NoData { entity: Entity::Reader, operation: Operation::Take })
    );
    assert_eq!(
        connector.read(&reader, 11),
        Err(Error::NoData { entity: Entity::Reader, operation: Operation::Read })
    );
    assert_eq!(
        connector.take(&reader, 1),
        Err(Error::Dispatch {
            operation: Operation::Take,
            name: READER.to_string(),
            code: ReturnCode::Error,
        })
    );
    assert_eq!(
        connector.read(&reader, 10),
        Err(Error::Dispatch {
            operation: Operation::Read,
            name: READER.to_string(),
            code: ReturnCode::Timeout,
        })
    );
    assert_eq!(
        connector.take(&reader, 14),
        Err(Error::UnrecognizedCode {
            operation: Operation::Take,
            name: READER.to_string(),
            number: 14,
        })
    );
    assert_eq!(
        connector.read(&reader, -1),
        Err(Error::UnrecognizedCode {
            operation: Operation::Read,
            name: READER.to_string(),
            number: -1,
        })
    );
    assert_eq!(
        connector.next(&reader, Operation::Wait, 10),
        Err(Error::Timeout { entity: Entity::Reader, name: READER.to_string() })
    );
}

#[test]
fn the_sample_count_is_asked_of_the_native_side() {
    let library = library();
    let connector = Connector::new(&library, CONFIG, FILE, handle(42)).unwrap();
    let reader = Reader::new(&connector, READER, handle(7)).unwrap();
    let call = connector.get_samples_length(&reader);
    assert_eq!(
        call,
        NativeCall::GetSamplesLength { connector: handle(42), entity_name: native(READER) }
    );
    assert_eq!(call, connector.get_samples_length(&reader));
    assert_eq!(call.entry_point(), EntryPoint::GetSamplesLength);
}

#[test]
fn samples_are_counted_from_one() {
    let library = library();
    let connector = Connector::new(&library, CONFIG, FILE, handle(42)).unwrap();
    let reader = Reader::new(&connector, READER, handle(7)).unwrap();
    for index in [1, 2, 100, i32::MAX] {
        assert_eq!(
            connector.get_json_sample_call(&reader, index),
            Ok(NativeCall::GetJsonSample {
                connector: handle(42),
                entity_name: native(READER),
                index,
            })
        );
        assert_eq!(
            connector.get_json_sample(&reader, index, handle(77), b"{}"),
            Ok(("{}".to_string(), NativeCall::FreeString { string: handle(77) }))
        );
    }
}

#[test]
fn an_index_below_one_is_a_range_error() {
    let library = library();
    let connector = Connector::new(&library, CONFIG, FILE, handle(42)).unwrap();
    let reader = Reader::new(&connector, READER, handle(7)).unwrap();
    for index in [0, -1, -100, i32::MIN] {
        assert_eq!(connector.get_json_sample_call(&reader, index), Err(Error::Range { index }));
        assert_eq!(
            connector.get_json_sample(&reader, index, handle(77), b"{}"),
            Err(Error::Range { index })
        );
    }
    assert!(connector.get_json_sample_call(&reader, 0).unwrap_err().is_local());
}

#[test]
fn a_sample_is_decoded_with_replacement() {
    let library = library();
    let connector = Connector::new(&library, CONFIG, FILE, handle(42)).unwrap();
    let reader = Reader::new(&connector, READER, handle(7)).unwrap();
    let (text, release) =
        connector.get_json_sample(&reader, 1, handle(4096), b"{\"color\":\"BLUE\"}").unwrap();
    assert_eq!(text, "{\"color\":\"BLUE\"}");
    assert_eq!(release, NativeCall::FreeString { string: handle(4096) });
    let (text, release) =
        connector.get_json_sample(&reader, 1, handle(8192), &[0x7b, 0xff, 0x7d]).unwrap();
    assert_eq!(text, "{\u{fffd}}");
    assert_eq!(release, NativeCall::FreeString { string: handle(8192) });
    assert_eq!(connector.free_string(handle(5)), NativeCall::FreeString { string: handle(5) });
    assert_eq!(connector.free_string(handle(5)).entry_point(), EntryPoint::FreeString);
}

#[test]
fn a_staged_instance_comes_back_as_the_same_text() {
    let library = library();
    let connector = Connector::new(&library, CONFIG, FILE, handle(42)).unwrap();
    let writer = Writer::new(&connector, WRITER, handle(9)).unwrap();
    let reader = Reader::new(&connector, READER, handle(7)).unwrap();
    let json = "{\"color\":\"BLUE\",\"x\":10,\"y\":20,\"shapesize\":30,\"note\":\"\u{e9}\"}";
    let staged = match connector.set_json_instance(&writer, json).unwrap() {
        NativeCall::SetJsonInstance { json, .. } => json,
        other => panic!("{:?}", other),
    };
    assert_eq!(connector.write(&writer).entry_point(), EntryPoint::WriterWrite);
    assert_eq!(connector.take(&reader, 0), Ok(()));
    let (text, _) = connector.get_json_sample(&reader, 1, handle(4096), staged.as_bytes()).unwrap();
    assert_eq!(text, json);
}

#[test]
fn a_failed_take_is_told_with_the_function_and_the_number() {
    let library = library();
    let connector = Connector::new(&library, CONFIG, FILE, handle(42)).unwrap();
    let reader = Reader::new(&connector, READER, handle(7)).unwrap();
    assert_eq!(
        connector.take(&reader, -1).unwrap_err().message(),
        "Unexpected error occured in Connector::take:-1"
    );
    assert_eq!(
        connector.take(&reader, 14).unwrap_err().message(),
        "Unexpected error occured in Connector::take:14"
    );
    assert_eq!(
        connector.take(&reader, 4).unwrap_err().message(),
        "Unexpected error occured in Connector::take:4"
    );
    assert_eq!(
        connector.take(&reader, 10).unwrap_err().message(),
        "Unexpected error occured in Connector::take:10"
    );
    assert_eq!(
        connector.take(&reader, 11).unwrap_err().message(),
        "Take called on Reader returned no data."
    );
}

#[test]
fn a_failed_read_is_told_with_the_function_and_the_number() {
    let library = library();
    let connector = Connector::new(&library, CONFIG, FILE, handle(42)).unwrap();
    let reader = Reader::new(&connector, READER, handle(7)).unwrap();
    assert_eq!(
        connector.read(&reader, -1).unwrap_err().message(),
        "Unexpected error occured in Connector::read:-1"
    );
    assert_eq!(
        connector.read(&reader, 1).unwrap_err().message(),
        "Unexpected error occured in Connector::read:1"
    );
    assert_eq!(
        connector.read(&reader, 11).unwrap_err().message(),
        "Read called on Reader returned no data."
    );
}

#[test]
fn an_index_below_one_is_told_in_words() {
    let library = library();
    let connector = Connector::new(&library, CONFIG, FILE, handle(42)).unwrap();
    let reader = Reader::new(&connector, READER, handle(7)).unwrap();
    assert_eq!(
        connector.get_json_sample_call(&reader, 0).unwrap_err().message(),
        "Connext sample index start at 1, "
    );
    assert_eq!(
        connector.get_json_sample(&reader, -5, handle(77), b"{}").unwrap_err().message(),
        "Connext sample index start at 1, "
    );
}

#[test]
fn a_connector_that_was_not_created_is_told_in_words() {
    let library = library();
    assert_eq!(
        Connector::new(&library, CONFIG, FILE, handle(0)).unwrap_err().message(),
        "Couldnt create connector, MyParticipantLibrary::MyParticipant"
    );
}
