use vaccel::resource::{downcast, length_of, Resource, ResourceError, ResourceRef};
use vaccel::server::{Handler, Vaccel};
use vaccel::session::native::NativeSession;
use vaccel::session::VaccelHandler;

#[test]
fn register_then_length() {
    let handler = Handler::new();

    let id = handler.register_resource(Resource::from("cat".to_string())).unwrap();
    assert_eq!(handler.length(ResourceRef::from_id(id)), Ok(3));

    let id = handler.register_resource(Resource::from("foobar".to_string())).unwrap();
    assert_eq!(handler.length(ResourceRef::from_id(id)), Ok(6));
}

#[test]
fn shared_handler_issues_distinct_ids() {
    let handler = VaccelHandler::new();
    let other = handler.clone();
    let mut ids = Vec::new();
    for i in 0..50u8 {
        let h = if i % 2 == 0 { &handler } else { &other };
        ids.push(h.register_resource(Resource::Bytes(vec![i])).unwrap());
    }
    for i in 0..ids.len() {
        for j in (i + 1)..ids.len() {
            assert_ne!(ids[i], ids[j]);
        }
    }
    assert_eq!(ids[0], 0);
    assert_eq!(ids[49], 49);
}

#[test]
fn identical_payloads_get_distinct_ids() {
    let handler = VaccelHandler::new();
    let a = handler.register_resource(Resource::from("same".to_string())).unwrap();
    let b = handler.register_resource(Resource::from("same".to_string())).unwrap();
    assert_ne!(a, b);
}

#[test]
fn interleaved_callers_see_their_own_lengths() {
    let handler = VaccelHandler::new();
    let words = ["a", "bb", "ccc", "dddd", "eeeee", "ffffff"];
    let clones: Vec<VaccelHandler> = words.iter().map(|_| handler.clone()).collect();
    let ids: Vec<u64> = words
        .iter()
        .zip(clones.iter())
        .map(|(w, h)| h.register_resource(Resource::from(w.to_string())).unwrap())
        .collect();
    for k in (0..words.len()).rev() {
        let got = clones[k].length(ResourceRef::from_id(ids[k]));
        assert_eq!(got, Ok(words[k].len()));
    }
}

#[test]
fn handler_unknown_id_is_not_found() {
    let handler = VaccelHandler::new();
    handler.register_resource(Resource::from("cat".to_string())).unwrap();
    assert_eq!(
        handler.length(ResourceRef::from_id(42)),
        Err(ResourceError::ResourceNotFound)
    );
    assert!(handler.get_resource(&ResourceRef::<String>::from_id(42)).is_none());
}

#[test]
fn handler_length_of_bytes_is_type_mismatch() {
    let handler = VaccelHandler::new();
    let id = handler.register_resource(Resource::Bytes(vec![1, 2, 3])).unwrap();
    assert_eq!(
        handler.length(ResourceRef::from_id(id)),
        Err(ResourceError::TypeMismatch)
    );
}

#[test]
fn handler_get_resource_shares_the_payload() {
    let handler = VaccelHandler::new();
    let id = handler.register_resource(Resource::Bytes(vec![9, 8])).unwrap();
    let found = handler.get_resource(&ResourceRef::<Vec<u8>>::from_id(id)).unwrap();
    assert!(matches!(&*found, Resource::Bytes(b) if b == &vec![9u8, 8]));
}

#[test]
fn length_counts_utf8_bytes() {
    let handler = VaccelHandler::new();
    let id = handler.register_resource(Resource::from("h\u{e9}llo".to_string())).unwrap();
    assert_eq!(handler.length(ResourceRef::from_id(id)), Ok(6));
    let id = handler.register_resource(Resource::from(String::new())).unwrap();
    assert_eq!(handler.length(ResourceRef::from_id(id)), Ok(0));
}

#[test]
fn length_of_each_outcome() {
    assert_eq!(length_of(None), Err(ResourceError::ResourceNotFound));
    assert_eq!(length_of(Some(&Resource::Bytes(vec![1]))), Err(ResourceError::TypeMismatch));
    assert_eq!(length_of(Some(&Resource::String("four".to_string()))), Ok(4));
}

#[test]
fn downcast_checks_the_kind() {
    let text = Resource::String("cat".to_string());
    let bytes = Resource::Bytes(vec![7, 7]);
    assert_eq!(downcast::<String>(&text), Ok(&"cat".to_string()));
    assert_eq!(downcast::<Vec<u8>>(&text), Err(ResourceError::TypeMismatch));
    assert_eq!(downcast::<Vec<u8>>(&bytes), Ok(&vec![7u8, 7]));
    assert_eq!(downcast::<String>(&bytes), Err(ResourceError::TypeMismatch));
}

#[test]
fn from_wraps_each_kind() {
    assert!(matches!(Resource::from(vec![1u8, 2]), Resource::Bytes(b) if b == vec![1u8, 2]));
    assert!(matches!(Resource::from("x".to_string()), Resource::String(s) if s == "x"));
}

#[test]
fn native_ids_start_at_one_and_increase() {
    let mut session = NativeSession::new();
    let a = session.register_resource(Resource::from("x".to_string())).unwrap();
    let b = session.register_resource(Resource::from("x".to_string())).unwrap();
    let c = session.register_resource(Resource::Bytes(vec![])).unwrap();
    assert_eq!((a, b, c), (1, 2, 3));
}

#[test]
fn native_round_trip() {
    let mut session = NativeSession::new();
    let text = session.register("cat".to_string()).unwrap();
    let blob = session.register(vec![0u8, 255, 3]).unwrap();
    assert_eq!(session.get_resource(&text), Some(&"cat".to_string()));
    assert_eq!(session.get_resource(&blob), Some(&vec![0u8, 255, 3]));
    assert_eq!(session.resolve_typed(&text).map(|s| s.len()), Ok(3));
    assert!(matches!(session.resolve(blob.id()), Ok(Resource::Bytes(b)) if b == &vec![0u8, 255, 3]));
}

#[test]
fn native_entries_persist_after_later_registrations() {
    let mut session = NativeSession::new();
    let first = session.register("foobar".to_string()).unwrap();
    for i in 0..10u8 {
        session.register(vec![i]).unwrap();
    }
    assert_eq!(session.resolve_typed(&first).map(|s| s.len()), Ok(6));
}

#[test]
fn native_unknown_id_is_not_found() {
    let mut session = NativeSession::new();
    session.register("cat".to_string()).unwrap();
    assert!(matches!(session.resolve(0), Err(ResourceError::ResourceNotFound)));
    assert!(matches!(session.resolve(2), Err(ResourceError::ResourceNotFound)));
    assert_eq!(
        session.resolve_typed(&ResourceRef::<String>::from_id(7)),
        Err(ResourceError::ResourceNotFound)
    );
    assert_eq!(session.get_resource(&ResourceRef::<String>::from_id(7)), None);
}

#[test]
fn native_type_mismatch() {
    let mut session = NativeSession::new();
    let text = session.register("cat".to_string()).unwrap();
    let as_bytes = ResourceRef::<Vec<u8>>::from_id(text.id());
    assert_eq!(session.resolve_typed(&as_bytes), Err(ResourceError::TypeMismatch));
    assert_eq!(session.get_resource(&as_bytes), None);

    let blob = session.register(vec![1u8]).unwrap();
    let as_text = ResourceRef::<String>::from_id(blob.id());
    assert_eq!(session.resolve_typed(&as_text), Err(ResourceError::TypeMismatch));
}

#[test]
fn native_invoke_runs_only_on_resolved_values() {
    let mut session = NativeSession::new();
    let text = session.register("cat".to_string()).unwrap();
    assert_eq!(session.invoke(&text, |s: &String| Ok(s.len())), Ok(3));
    assert_eq!(
        session.invoke(&text, |_: &String| Err::<usize, _>(ResourceError::TransportFailure)),
        Err(ResourceError::TransportFailure)
    );

    let as_bytes = ResourceRef::<Vec<u8>>::from_id(text.id());
    let ran = std::cell::Cell::new(false);
    let out = session.invoke(&as_bytes, |b: &Vec<u8>| {
        ran.set(true);
        Ok(b.len())
    });
    assert_eq!(out, Err(ResourceError::TypeMismatch));
    assert!(!ran.get());

    let missing = ResourceRef::<String>::from_id(99);
    assert_eq!(session.invoke(&missing, |s: &String| Ok(s.len())), Err(ResourceError::ResourceNotFound));
}
