use ludusavi_sync::lang::Translator;
use ludusavi_sync::shortcuts::TextHistory;

#[test]
fn text_history() {
    let mut ht = TextHistory::new("initial", 3);

    assert_eq!(ht.current(), "initial");
    assert_eq!(ht.undo(), "initial");
    assert_eq!(ht.redo(), "initial");

    ht.push("a");
    assert_eq!(ht.current(), "a");
    assert_eq!(ht.undo(), "initial");
    assert_eq!(ht.undo(), "initial");
    assert_eq!(ht.redo(), "a");
    assert_eq!(ht.redo(), "a");

    // Duplicates are ignored:
    ht.push("a");
    ht.push("a");
    ht.push("a");
    assert_eq!(ht.undo(), "initial");

    // History is clipped at the limit:
    ht.push("b");
    ht.push("c");
    ht.push("d");
    assert_eq!(ht.undo(), "c");
    assert_eq!(ht.undo(), "b");
    assert_eq!(ht.undo(), "b");

    // Redos are lost on push:
    ht.push("e");
    assert_eq!(ht.current(), "e");
    assert_eq!(ht.redo(), "e");
    assert_eq!(ht.undo(), "b");
    assert_eq!(ht.undo(), "b");
}

#[test]
fn adjusted_size() {
    let translator = Translator {};
    assert_eq!("0 B", &translator.adjusted_size(0));
    assert_eq!("1 B", &translator.adjusted_size(1));
    assert_eq!("1.03 KiB", &translator.adjusted_size(1_050));
    assert_eq!("100.00 KiB", &translator.adjusted_size(102_400));
    assert_eq!("114.98 GiB", &translator.adjusted_size(123_456_789_000));
}
