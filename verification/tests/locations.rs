use nuhound::{Failure, ForeignCause, Location, LocationTag, Nuhound};

fn at() -> Location {
    Location::new("src/main.rs", 6, 48)
}

#[test]
fn location_holds_its_parts() {
    let at = at();
    assert_eq!(at.file, "src/main.rs");
    assert_eq!(at.line, 6);
    assert_eq!(at.column, 48);
}

#[test]
fn tag_remembers_its_mode() {
    assert!(LocationTag::new(true).disclose());
    assert!(!LocationTag::new(false).disclose());
}

#[test]
fn message_with_and_without_location() {
    let text = "Oh dear - 'NaN' could not be converted to an integer";
    assert_eq!(LocationTag::new(false).inform(&at(), text), text);
    assert_eq!(
        LocationTag::new(true).inform(&at(), text),
        "src/main.rs:6:48: Oh dear - 'NaN' could not be converted to an integer"
    );
}

#[test]
fn location_numbers_are_written_in_full() {
    let far = Location::new("a.rs", 0, u32::MAX);
    assert_eq!(LocationTag::new(true).inform(&far, "x"), "a.rs:0:4294967295: x");
    assert_eq!(LocationTag::new(true).inform(&Location::new("", 10, 100), ""), ":10:100: ");
}

#[test]
fn unspecified_record() {
    let plain = LocationTag::new(false).unspecified(&at());
    assert_eq!(plain.trace(), " 0: unspecified error");
    let disclosed = LocationTag::new(true).unspecified(&at());
    assert_eq!(disclosed.trace(), " 0: src/main.rs:6:48: unspecified error");
}

#[test]
fn root_record() {
    let plain = LocationTag::new(false).root(&at(), "value 23 not allowed");
    assert_eq!(plain.trace(), " 0: value 23 not allowed");
    let disclosed = LocationTag::new(true).root(&at(), "value 23 not allowed");
    assert_eq!(disclosed.trace(), " 0: src/main.rs:6:48: value 23 not allowed");
}

#[test]
fn cause_alone_gives_the_message() {
    let single = || Failure::Foreign(ForeignCause::new("invalid digit found in string"));
    let plain = LocationTag::new(false).cause(&at(), single());
    assert_eq!(plain.trace(), " 0: invalid digit found in string");
    let disclosed = LocationTag::new(true).cause(&at(), single());
    assert_eq!(disclosed.trace(), " 0: src/main.rs:6:48: invalid digit found in string");
}

#[test]
fn cause_alone_keeps_what_lies_behind_it() {
    let chain = || {
        Failure::Foreign(
            ForeignCause::new("outer")
                .caused_by(ForeignCause::new("middle").caused_by(ForeignCause::new("inner"))),
        )
    };
    let plain = LocationTag::new(false).cause(&at(), chain());
    assert_eq!(plain.trace(), " 0: outer\n 1: middle\n 2: inner");
    let disclosed = LocationTag::new(true).cause(&at(), chain());
    assert_eq!(disclosed.trace(), " 0: src/main.rs:6:48: outer\n 1: middle\n 2: inner");

    let record = Failure::Record(Nuhound::new("A").caused_by(Nuhound::new("B")));
    let disclosed = LocationTag::new(true).cause(&at(), record);
    assert_eq!(disclosed.trace(), " 0: src/main.rs:6:48: A\n 1: B");
}

#[test]
fn cause_with_message() {
    let chain =
        || Failure::Foreign(ForeignCause::new("outer").caused_by(ForeignCause::new("inner")));
    let plain = LocationTag::new(false).cause_with(&at(), chain(), "context");
    assert_eq!(plain.trace(), " 0: context\n 1: outer\n 2: inner");
    let disclosed = LocationTag::new(true).cause_with(&at(), chain(), "context");
    assert_eq!(disclosed.trace(), " 0: src/main.rs:6:48: context\n 1: outer\n 2: inner");
}

#[test]
fn disclosing_changes_messages_only() {
    let layers = |tag: &LocationTag| {
        let first = tag.root(&Location::new("src/main.rs", 7, 13), "This just fails");
        let second = tag.cause_with(
            &Location::new("src/main.rs", 14, 23),
            Failure::Record(first),
            "Layer 2 failure",
        );
        tag.cause_with(
            &Location::new("src/main.rs", 19, 23),
            Failure::Record(second),
            "Top level failure",
        )
    };
    assert_eq!(
        layers(&LocationTag::new(false)).trace(),
        " 0: Top level failure\n 1: Layer 2 failure\n 2: This just fails"
    );
    assert_eq!(
        layers(&LocationTag::new(true)).trace(),
        " 0: src/main.rs:19:23: Top level failure\n 1: src/main.rs:14:23: Layer 2 failure\n 2: src/main.rs:7:13: This just fails"
    );
}
