use rlox::scanning::seq::CharacterSequence;

#[test]
fn sequence_iterates_in_correct_order() {
    //+ arrange
    let collection = vec![1i32, 2, 3, 4, 5];
    let mut sequence = CharacterSequence::new(collection);

    //+ act & assert
    assert_eq!(sequence.next(), Some(1));
    assert_eq!(sequence.next(), Some(2));
    assert_eq!(sequence.next(), Some(3));
    assert_eq!(sequence.next(), Some(4));
    assert_eq!(sequence.next(), Some(5));
    assert_eq!(sequence.next(), None);
}

#[test]
fn sequence_peek_next_shows_next_item_to_be_returned() {
    //+ arrange
    let collection = vec![1i32, 2, 3, 4, 5];
    let mut sequence = CharacterSequence::new(collection);

    //+ arrange
    sequence.next();
    sequence.next();

    //+ assert
    assert_eq!(sequence.peek_next(), Some(3));
    assert_eq!(sequence.next(), Some(3));
}

#[test]
fn sequence_peek_ahead_shows_item_after_next_to_be_returned() {
    //+ arrange
    let collection = vec![1i32, 2, 3, 4, 5];
    let mut sequence = CharacterSequence::new(collection);

    //+ arrange
    sequence.next();
    sequence.next();

    //+ assert
    assert_eq!(sequence.peek_ahead(), Some(4));
    assert_eq!(sequence.next(), Some(3));
}

#[test]
fn sequence_maintains_previous_item_when_iteration_complete() {
    //+ arrange
    let collection = vec![1i32, 2, 3, 4, 5];
    let mut sequence = CharacterSequence::new(collection);

    //+ act & assert
    sequence.next();
    sequence.next();
    sequence.next();
    sequence.next();
    sequence.next();
    sequence.next();

    //+ assert
    assert_eq!(sequence.previous(), Some(5));
}

#[test]
fn sequence_over_no_items_yields_nothing() {
    let collection: Vec<i32> = Vec::new();
    let mut sequence = CharacterSequence::new(collection);

    assert_eq!(sequence.peek_next(), None);
    assert_eq!(sequence.peek_ahead(), None);
    assert_eq!(sequence.previous(), None);
    assert_eq!(sequence.next(), None);
    assert_eq!(sequence.previous(), None);
}

#[test]
fn sequence_peeks_do_not_consume() {
    let collection = vec![7i32, 8];
    let mut sequence = CharacterSequence::new(collection);

    assert_eq!(sequence.peek_next(), Some(7));
    assert_eq!(sequence.peek_next(), Some(7));
    assert_eq!(sequence.peek_ahead(), Some(8));
    assert_eq!(sequence.next(), Some(7));
    assert_eq!(sequence.peek_next(), Some(8));
    assert_eq!(sequence.peek_ahead(), None);
}
