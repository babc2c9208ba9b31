use syncthing_client::event_stream::{DecodeFault, EventStream, FetchedEvent};
use syncthing_client::rest::events::{
    Event, EventData, EventType, ItemAction, ItemFinishedEvent, LoginAttemptEvent,
};

fn plain_event(id: u64) -> FetchedEvent {
    FetchedEvent::Decoded(Event {
        id,
        global_id: id,
        time: "2024-01-01T00:00:00Z".to_string(),
        data: EventData::StartupComplete,
    })
}

fn login_event(id: u64) -> FetchedEvent {
    FetchedEvent::Decoded(Event {
        id,
        global_id: id,
        time: "2024-01-01T00:00:00Z".to_string(),
        data: EventData::LoginAttempt(LoginAttemptEvent {
            username: "user".to_string(),
            success: true,
        }),
    })
}

fn item_finished_event(id: u64) -> FetchedEvent {
    FetchedEvent::Decoded(Event {
        id,
        global_id: id,
        time: "2024-01-01T00:00:00Z".to_string(),
        data: EventData::ItemFinished(ItemFinishedEvent {
            item: "a.txt".to_string(),
            folder: "default".to_string(),
            error: None,
            item_type: "file".to_string(),
            action: ItemAction::Update,
        }),
    })
}

fn malformed(id: u64) -> FetchedEvent {
    FetchedEvent::Malformed(DecodeFault {
        id,
        global_id: id,
        time: "2024-01-01T00:00:00Z".to_string(),
        message: "missing field".to_string(),
    })
}

fn yielded_id(entry: &FetchedEvent) -> u64 {
    match entry {
        FetchedEvent::Decoded(e) => e.id,
        FetchedEvent::Malformed(f) => f.id,
    }
}

#[test]
fn bootstrap_first_fetch_has_limit_one() {
    let mut stream = EventStream::new(Vec::new());
    let req = stream.current_request().expect("a fresh stream awaits a fetch");
    assert_eq!(req.since, None);
    assert_eq!(req.limit, Some(1));
    assert_eq!(req.path_and_query(), "/rest/events?limit=1");

    assert!(stream.accept_batch(vec![plain_event(17)]));
    let first = stream.try_next().expect("one event is buffered");
    assert_eq!(yielded_id(&first), 17);
    assert_eq!(stream.cursor_value(), Some(17));

    // The buffer is exhausted: the next advance arms a fetch from the new
    // cursor, without a limit.
    assert!(stream.try_next().is_none());
    let req = stream.current_request().expect("an empty buffer arms a fetch");
    assert_eq!(req.since, Some(17));
    assert_eq!(req.limit, None);
    assert_eq!(req.path_and_query(), "/rest/events?since=17");
}

#[test]
fn ordering_and_cursor_follow_deliveries() {
    let mut stream = EventStream::new(Vec::new());
    assert!(stream.accept_batch(vec![plain_event(3), plain_event(7), plain_event(20)]));
    let mut last = 0u64;
    for _ in 0..3 {
        let entry = stream.try_next().expect("batch entries are delivered in order");
        let id = yielded_id(&entry);
        assert!(last < id, "delivered identifiers must be strictly ascending");
        assert_eq!(stream.cursor_value(), Some(id));
        last = id;
    }
    assert_eq!(last, 20);
    assert!(stream.try_next().is_none());
}

#[test]
fn failed_fetch_keeps_cursor_and_retries() {
    let mut stream = EventStream::new(Vec::new());
    assert!(stream.accept_batch(vec![plain_event(42)]));
    let first = stream.try_next().expect("one event is buffered");
    assert_eq!(yielded_id(&first), 42);
    assert!(stream.try_next().is_none());

    // The fetch fails, say with HTTP 500: the cursor must not move, and the
    // retry must ask from the identical cursor.
    let before = stream.current_request().expect("a fetch is awaited");
    stream.fetch_failed();
    let retry = stream.current_request().expect("a failed fetch is re-armed");
    assert_eq!(retry.since, before.since);
    assert_eq!(retry.since, Some(42));
    assert_eq!(retry.limit, None);

    // A subsequent successful fetch resumes strictly increasing delivery.
    assert!(stream.accept_batch(vec![plain_event(43), plain_event(44)]));
    let next = stream.try_next().expect("delivery resumes");
    assert_eq!(yielded_id(&next), 43);
    assert_eq!(stream.cursor_value(), Some(43));
}

#[test]
fn stale_batch_after_retry_is_refused() {
    let mut stream = EventStream::new(Vec::new());
    assert!(stream.accept_batch(vec![plain_event(42)]));
    stream.try_next().expect("one event is buffered");
    assert!(stream.try_next().is_none());
    stream.fetch_failed();

    // A batch that would re-deliver id 42 or less is refused outright, and
    // the engine keeps awaiting a fetch from the unchanged cursor.
    assert!(!stream.accept_batch(vec![plain_event(42)]));
    assert_eq!(stream.cursor_value(), Some(42));
    let retry = stream.current_request().expect("the refusal re-arms the fetch");
    assert_eq!(retry.since, Some(42));

    assert!(!stream.accept_batch(vec![plain_event(43), plain_event(43)]));
    assert!(stream.accept_batch(vec![plain_event(43), plain_event(44)]));
}

#[test]
fn decode_isolation_one_bad_entry_among_good_ones() {
    let mut stream = EventStream::new(Vec::new());
    assert!(stream.accept_batch(vec![
        plain_event(1),
        plain_event(2),
        malformed(3),
        plain_event(4),
        plain_event(5),
    ]));
    let mut successes = 0;
    let mut faults = 0;
    let mut ids = Vec::new();
    while let Some(entry) = stream.try_next() {
        ids.push(yielded_id(&entry));
        match entry {
            FetchedEvent::Decoded(_) => successes += 1,
            FetchedEvent::Malformed(_) => faults += 1,
        }
    }
    assert_eq!(successes, 4);
    assert_eq!(faults, 1);
    assert_eq!(ids, vec![1, 2, 3, 4, 5]);
    // The fault advanced the cursor too, so it is not fetched again.
    assert_eq!(stream.cursor_value(), Some(5));
}

#[test]
fn filter_is_passed_unchanged_on_every_fetch() {
    let filter = vec![EventType::FolderSummary, EventType::ItemFinished];
    let mut stream = EventStream::new(filter.clone());
    let req = stream.current_request().expect("a fresh stream awaits a fetch");
    assert_eq!(req.events, filter);
    assert_eq!(
        req.path_and_query(),
        "/rest/events?events=FolderSummary,ItemFinished&limit=1"
    );

    assert!(stream.accept_batch(vec![item_finished_event(8)]));
    let entry = stream.try_next().expect("one event is buffered");
    match entry {
        FetchedEvent::Decoded(e) => {
            assert_eq!(e.data.event_type(), EventType::ItemFinished);
        }
        FetchedEvent::Malformed(_) => panic!("the entry decodes"),
    }
    assert!(stream.try_next().is_none());

    stream.fetch_failed();
    let retry = stream.current_request().expect("a failed fetch is re-armed");
    assert_eq!(retry.events, filter);
    assert_eq!(
        retry.path_and_query(),
        "/rest/events?events=FolderSummary,ItemFinished&since=8"
    );
}

#[test]
fn delivered_types_stay_within_the_filter() {
    // A daemon that honors the filter sends only the subscribed types; the
    // stream then never yields any other type.
    let filter = vec![EventType::FolderSummary, EventType::ItemFinished];
    let mut stream = EventStream::new(filter.clone());
    assert!(stream.accept_batch(vec![item_finished_event(1), item_finished_event(2)]));
    while let Some(entry) = stream.try_next() {
        if let FetchedEvent::Decoded(e) = entry {
            assert!(filter.contains(&e.data.event_type()));
        }
    }
}

#[test]
fn empty_batch_leads_to_next_fetch() {
    let mut stream = EventStream::new(Vec::new());
    assert!(stream.accept_batch(Vec::new()));
    assert!(stream.try_next().is_none());
    let req = stream.current_request().expect("an empty buffer arms a fetch");
    assert_eq!(req.since, None);
    assert_eq!(req.limit, None);
    assert_eq!(req.path_and_query(), "/rest/events");
}

#[test]
fn login_events_drain_in_batch_order() {
    let mut stream = EventStream::new(vec![EventType::LoginAttempt]);
    assert!(stream.accept_batch(vec![login_event(5), login_event(9)]));
    let first = stream.try_next().expect("two entries are buffered");
    assert_eq!(yielded_id(&first), 5);
    let second = stream.try_next().expect("one entry is left");
    assert_eq!(yielded_id(&second), 9);
    assert_eq!(stream.cursor_value(), Some(9));
}
