use graph_punk::message::MessageCaller;
use graph_punk::resource::Resource;
use graph_punk::types::UserData;

struct Counter(i32);

fn bump(resource: &mut Resource, by: i32) {
    if let Some(counters) = resource.query_mut::<Counter>() {
        for counter in counters {
            counter.0 += by;
        }
    }
}

fn counter(resource: &Resource) -> i32 {
    resource.get_ref::<Counter>("counter").unwrap().0
}

#[test]
fn a_message_without_a_handler_is_refused() {
    let mut caller: MessageCaller<()> = MessageCaller::default();

    let result = caller.add_message("toggle", UserData::new(1_i32));

    assert_eq!(result, Err(String::from("no message found")));
}

#[test]
fn a_refused_message_registers_nothing() {
    let mut caller: MessageCaller<()> = MessageCaller::default();
    let mut resource = Resource::new();
    resource.add("counter", Counter(0));

    assert_eq!(caller.pending("toggle"), None);
    assert!(caller.add_message("toggle", UserData::new(1_i32)).is_err());
    assert_eq!(caller.pending("toggle"), None);
    assert!(caller.add_message("toggle", UserData::new(1_i32)).is_err());
    caller.execute(&mut (), &mut resource);

    assert_eq!(caller.pending("toggle"), None);
    assert_eq!(counter(&resource), 0);
}

#[test]
fn pending_counts_what_waits() {
    let mut caller: MessageCaller<()> = MessageCaller::default();
    let mut resource = Resource::new();

    caller.register_message("a", |_: &mut (), _: &mut Resource, _: &mut UserData| ());
    caller.register_message("b", |_: &mut (), _: &mut Resource, _: &mut UserData| ());
    assert_eq!(caller.pending("a"), Some(0));

    caller.add_message("a", UserData::empty()).unwrap();
    caller.add_message("a", UserData::empty()).unwrap();
    caller.add_message("b", UserData::empty()).unwrap();
    assert_eq!(caller.pending("a"), Some(2));
    assert_eq!(caller.pending("b"), Some(1));
    assert_eq!(caller.pending("c"), None);

    caller.register_message("b", |_: &mut (), _: &mut Resource, _: &mut UserData| ());
    assert_eq!(caller.pending("b"), Some(0));
    assert_eq!(caller.pending("a"), Some(2));

    caller.execute(&mut (), &mut resource);
    assert_eq!(caller.pending("a"), Some(0));
    assert_eq!(caller.pending("b"), Some(0));
}

#[test]
fn three_payloads_run_the_handler_three_times() {
    let mut caller: MessageCaller<()> = MessageCaller::default();
    let mut resource = Resource::new();
    resource.add("counter", Counter(0));

    caller.register_message(
        "toggle",
        |_: &mut (), resource: &mut Resource, _: &mut UserData| bump(resource, 1),
    );
    for _ in 0..3 {
        assert_eq!(caller.add_message("toggle", UserData::empty()), Ok(()));
    }

    caller.execute(&mut (), &mut resource);
    assert_eq!(counter(&resource), 3);

    caller.execute(&mut (), &mut resource);
    assert_eq!(counter(&resource), 3);
}

#[test]
fn payloads_reach_the_handler_oldest_first() {
    let mut seen: Vec<i32> = Vec::new();
    {
        let mut caller: MessageCaller<()> = MessageCaller::new();
        let mut resource = Resource::new();

        caller.register_message(
            "log",
            |_: &mut (), _: &mut Resource, data: &mut UserData| {
                seen.push(*data.get::<i32>().unwrap())
            },
        );
        for value in [5, 3, 9] {
            caller.add_message("log", UserData::new(value)).unwrap();
        }
        caller.execute(&mut (), &mut resource);
    }

    assert_eq!(seen, vec![5, 3, 9]);
}

#[test]
fn the_handler_receives_the_render_state() {
    let mut caller: MessageCaller<Vec<&'static str>> = MessageCaller::new();
    let mut resource = Resource::new();
    let mut frames: Vec<&'static str> = Vec::new();

    caller.register_message(
        "draw",
        |frames: &mut Vec<&'static str>, _: &mut Resource, data: &mut UserData| {
            frames.push(*data.get::<&'static str>().unwrap())
        },
    );
    caller.add_message("draw", UserData::new("one")).unwrap();
    caller.add_message("draw", UserData::new("two")).unwrap();
    caller.execute(&mut frames, &mut resource);

    assert_eq!(frames, vec!["one", "two"]);
}

#[test]
fn registering_again_drops_the_old_handler_and_its_queue() {
    let mut caller: MessageCaller<()> = MessageCaller::new();
    let mut resource = Resource::new();
    resource.add("counter", Counter(0));

    caller.register_message(
        "toggle",
        |_: &mut (), resource: &mut Resource, _: &mut UserData| bump(resource, 1),
    );
    caller.add_message("toggle", UserData::empty()).unwrap();
    caller.add_message("toggle", UserData::empty()).unwrap();

    caller.register_message(
        "toggle",
        |_: &mut (), resource: &mut Resource, _: &mut UserData| bump(resource, 100),
    );
    caller.execute(&mut (), &mut resource);
    assert_eq!(counter(&resource), 0);

    caller.add_message("toggle", UserData::empty()).unwrap();
    caller.execute(&mut (), &mut resource);
    assert_eq!(counter(&resource), 100);
}

#[test]
fn each_id_has_its_own_handler_and_queue() {
    let mut caller: MessageCaller<()> = MessageCaller::new();
    let mut resource = Resource::new();
    resource.add("counter", Counter(0));

    caller.register_message(
        "one",
        |_: &mut (), resource: &mut Resource, _: &mut UserData| bump(resource, 1),
    );
    caller.register_message(
        "ten",
        |_: &mut (), resource: &mut Resource, _: &mut UserData| bump(resource, 10),
    );
    caller.add_message("ten", UserData::empty()).unwrap();
    caller.add_message("one", UserData::empty()).unwrap();
    caller.add_message("ten", UserData::empty()).unwrap();
    assert!(caller.add_message("hundred", UserData::empty()).is_err());

    caller.execute(&mut (), &mut resource);

    assert_eq!(counter(&resource), 21);
}

#[test]
fn a_handler_can_change_its_payload() {
    let mut total = 0;
    {
        let mut caller: MessageCaller<()> = MessageCaller::new();
        let mut resource = Resource::new();

        caller.register_message(
            "double",
            |_: &mut (), _: &mut Resource, data: &mut UserData| {
                if let Some(value) = data.get_mut::<i32>() {
                    *value *= 2;
                    total += *value;
                }
            },
        );
        caller.add_message("double", UserData::new(4_i32)).unwrap();
        caller.add_message("double", UserData::new(String::from("no number"))).unwrap();
        caller.execute(&mut (), &mut resource);
    }

    assert_eq!(total, 8);
}

#[test]
fn a_handler_for_which_nothing_waits_is_not_called() {
    let mut calls: Vec<&'static str> = Vec::new();
    {
        let log = std::cell::RefCell::new(&mut calls);
        let mut caller: MessageCaller<()> = MessageCaller::new();
        let mut resource = Resource::new();

        caller.register_message("a", |_: &mut (), _: &mut Resource, _: &mut UserData| {
            log.borrow_mut().push("a")
        });
        caller.register_message("b", |_: &mut (), _: &mut Resource, _: &mut UserData| {
            log.borrow_mut().push("b")
        });
        caller.add_message("a", UserData::empty()).unwrap();
        caller.add_message("a", UserData::empty()).unwrap();

        caller.execute(&mut (), &mut resource);
        caller.execute(&mut (), &mut resource);
    }

    assert_eq!(calls, vec!["a", "a"]);
}

#[test]
fn each_call_finds_what_the_call_before_left() {
    let mut caller: MessageCaller<i64> = MessageCaller::new();
    let mut resource = Resource::new();
    let mut state: i64 = 0;
    resource.add("trace", String::new());

    caller.register_message(
        "digit",
        |state: &mut i64, resource: &mut Resource, data: &mut UserData| {
            *state = *state * 10 + *data.get::<i64>().unwrap();
            for trace in resource.query_mut::<String>().unwrap() {
                trace.push_str(&state.to_string());
                trace.push(' ');
            }
        },
    );
    for digit in [1_i64, 2, 3] {
        caller.add_message("digit", UserData::new(digit)).unwrap();
    }

    caller.execute(&mut state, &mut resource);

    assert_eq!(state, 123);
    assert_eq!(
        resource.get_ref::<String>("trace"),
        Some(&String::from("1 12 123 "))
    );

    caller.execute(&mut state, &mut resource);
    assert_eq!(state, 123);
}
