use nuhound::{is_nuhound, Failure, ForeignCause, Nuhound};

#[test]
fn leaf_has_message_and_no_cause() {
    let record = Nuhound::new("My custom error");
    assert_eq!(record.message(), "My custom error");
    assert_eq!(record.to_string(), "My custom error");
    assert!(record.source().is_none());
}

#[test]
fn empty_message_is_kept() {
    let record = Nuhound::new("");
    assert_eq!(record.to_string(), "");
    assert_eq!(record.trace(), " 0: ");
}

#[test]
fn cause_is_attached_behind_the_record() {
    let record = Nuhound::new("Out of bounds").caused_by(Nuhound::new("missing value detected"));
    assert_eq!(record.message(), "Out of bounds");
    let cause = record.source().unwrap();
    assert_eq!(cause.message(), "missing value detected");
    assert!(cause.source().is_none());
}

#[test]
fn cause_keeps_its_own_chain() {
    let inner = Nuhound::new("B").caused_by(Nuhound::new("C"));
    let record = Nuhound::new("A").caused_by(inner);
    assert_eq!(record.trace(), " 0: A\n 1: B\n 2: C");
}

#[test]
fn second_cause_replaces_the_first() {
    let record = Nuhound::new("A").caused_by(Nuhound::new("B")).caused_by(Nuhound::new("C"));
    assert_eq!(record.trace(), " 0: A\n 1: C");
    assert_eq!(record.source().unwrap().to_string(), "C");
    assert!(record.source().unwrap().source().is_none());
}

#[test]
fn display_shows_only_the_top_message() {
    let mut record = Nuhound::new("layer 0");
    for i in 1..40 {
        record = Nuhound::new(&format!("layer {i}")).caused_by(record);
    }
    let shown = record.to_string();
    assert_eq!(shown, "layer 39");
    assert!(!shown.contains('\n'));
    assert!(!shown.contains("layer 38"));
}

#[test]
fn with_message_keeps_the_cause() {
    let record = Nuhound::new("old").caused_by(Nuhound::new("cause"));
    let record = record.with_message("new");
    assert_eq!(record.trace(), " 0: new\n 1: cause");
    let leaf = Nuhound::new("old").with_message("new");
    assert_eq!(leaf.trace(), " 0: new");
}

#[test]
fn link_puts_the_message_over_a_single_failure() {
    let cause = ForeignCause::new("invalid digit found in string");
    let record = Nuhound::link("Parse Integer failed", &cause);
    assert_eq!(record.trace(), " 0: Parse Integer failed\n 1: invalid digit found in string");
}

#[test]
fn link_keeps_the_order_of_a_foreign_chain() {
    let cause = ForeignCause::new("outer")
        .caused_by(ForeignCause::new("middle").caused_by(ForeignCause::new("inner")));
    let record = Nuhound::link("top", &cause);
    assert_eq!(record.trace(), " 0: top\n 1: outer\n 2: middle\n 3: inner");
    assert_eq!(record.to_string(), "top");
}

#[test]
fn link_handles_a_long_foreign_chain() {
    let mut cause = ForeignCause::new("cause 0");
    for i in 1..5000 {
        cause = ForeignCause::new(&format!("cause {i}")).caused_by(cause);
    }
    let record = Nuhound::link("top", &cause);
    let trace = record.trace();
    let lines: Vec<&str> = trace.split('\n').collect();
    assert_eq!(lines.len(), 5001);
    assert_eq!(lines[0], " 0: top");
    assert_eq!(lines[1], " 1: cause 4999");
    assert_eq!(lines[5000], "5000: cause 0");
}

#[test]
fn flatten_copies_every_layer() {
    let cause = ForeignCause::new("outer").caused_by(ForeignCause::new("inner"));
    let record = Nuhound::flatten(&cause);
    assert_eq!(record.trace(), " 0: outer\n 1: inner");
    let single = Nuhound::flatten(&ForeignCause::new("alone"));
    assert_eq!(single.trace(), " 0: alone");
    assert!(single.source().is_none());
}

#[test]
fn foreign_cause_accessors() {
    let cause = ForeignCause::new("outer").caused_by(ForeignCause::new("inner"));
    assert_eq!(cause.message(), "outer");
    let deeper = cause.source().unwrap();
    assert_eq!(deeper.message(), "inner");
    assert!(deeper.source().is_none());
    let replaced = cause.caused_by(ForeignCause::new("other"));
    assert_eq!(replaced.source().unwrap().message(), "other");
}

#[test]
fn clone_copies_the_chain() {
    let record = Nuhound::new("A").caused_by(Nuhound::new("B").caused_by(Nuhound::new("C")));
    let copy = record.clone();
    assert_eq!(copy.trace(), " 0: A\n 1: B\n 2: C");
    assert_eq!(copy, record);
}

#[test]
fn equality_compares_whole_chains() {
    let a = Nuhound::new("A").caused_by(Nuhound::new("B"));
    let b = Nuhound::new("A").caused_by(Nuhound::new("B"));
    let shorter = Nuhound::new("A");
    let longer = Nuhound::new("A").caused_by(Nuhound::new("B").caused_by(Nuhound::new("C")));
    let other_cause = Nuhound::new("A").caused_by(Nuhound::new("X"));
    let other_top = Nuhound::new("X").caused_by(Nuhound::new("B"));
    assert!(a == b);
    assert!(a != shorter);
    assert!(shorter != a);
    assert!(a != longer);
    assert!(a != other_cause);
    assert!(a != other_top);
}

#[test]
fn from_str_makes_a_leaf() {
    let record: Nuhound = "value 23 not allowed".into();
    assert_eq!(record.trace(), " 0: value 23 not allowed");
    assert_eq!(record, Nuhound::new("value 23 not allowed"));
}

#[test]
fn is_nuhound_tells_records_from_foreign_failures() {
    let record = Failure::Record(Nuhound::new("Parse Integer failed"));
    let foreign = Failure::Foreign(ForeignCause::new("invalid digit found in string"));
    assert!(is_nuhound(&record));
    assert!(!is_nuhound(&foreign));
}

#[test]
fn failure_becomes_a_record_of_the_same_layers() {
    let record = Failure::Record(Nuhound::new("A").caused_by(Nuhound::new("B")));
    assert_eq!(record.into_record().trace(), " 0: A\n 1: B");
    let foreign =
        Failure::Foreign(ForeignCause::new("x").caused_by(ForeignCause::new("y")));
    assert_eq!(foreign.into_record().trace(), " 0: x\n 1: y");
}
