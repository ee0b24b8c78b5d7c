use impl_iter_tuple_kind_of::example::{add_one_each, Example, ExampleList};
use impl_iter_tuple_kind_of::pair;
use impl_iter_tuple_kind_of::pair::{
    identity, mut_identity, ref_identity, to_array_mut, to_array_owned, to_iter, Item, ItemRef,
};

#[test]
fn to_array() {
    let mut data = (1_u8, 2_i8);
    for mut x in to_array_mut(&mut data) {
        x.add_one();
    }

    for x in to_array_owned((1_u8, 2_i8)) {
        println!("{}", x.value());
    }

    let values: Vec<i32> = pair::to_array(&(1_u8, 2_i8))
        .into_iter()
        .map(|x| x.value())
        .collect();

    assert_eq!(values, [1, 2]);
}

#[test]
fn as_iter() {
    let data = (1_u8, 2_i8);
    let mut it = pair::as_iter(&data);
    let mut values: Vec<i32> = Vec::new();
    while let Some(x) = it.next() {
        values.push(x.value());
    }

    assert_eq!(values, [1, 2]);
}

#[test]
fn as_iter_mut() {
    let mut data = (1_u8, 2_i8);

    let mut it = pair::as_iter_mut(&mut data);
    while let Some(mut x) = it.next() {
        x.add_one();
    }

    let mut it = pair::as_iter(&data);
    let mut values: Vec<i32> = Vec::new();
    while let Some(x) = it.next() {
        values.push(x.value());
    }

    assert_eq!(values, [2, 3]);
}

#[test]
fn example_list_tuple() {
    let values = (1_u8, 2_i8).example_values();

    assert_eq!(values, [1, 2]);
}

#[test]
fn example_list_array() {
    let values = [1_u8, 2_u8].example_values();

    assert_eq!(values, [1, 2]);
}

#[test]
fn to_array_views_point_at_the_slots_in_order() {
    let data = (7_u8, -3_i8);
    let [a, b] = pair::to_array(&data);
    assert!(matches!(a, ItemRef::First(x) if std::ptr::eq(x, &data.0)));
    assert!(matches!(b, ItemRef::Second(y) if std::ptr::eq(y, &data.1)));
    assert_eq!(a.value(), 7);
    assert_eq!(b.value(), -3);
}

#[test]
fn iter_yields_two_then_stops() {
    let data = (1_u8, 2_i8);
    let mut it = pair::as_iter(&data);
    assert_eq!(it.len(), 2);
    assert_eq!(it.size_hint(), (2, Some(2)));
    assert_eq!(it.next().map(|x| x.value()), Some(1));
    assert_eq!(it.len(), 1);
    assert_eq!(it.next().map(|x| x.value()), Some(2));
    assert_eq!(it.len(), 0);
    assert_eq!(it.size_hint(), (0, Some(0)));
    assert!(it.next().is_none());
    assert!(it.next().is_none());
    assert_eq!(it.len(), 0);
}

#[test]
fn iter_dropped_after_one_item() {
    let data = (String::from("a"), vec![1_u8]);
    {
        let mut it = pair::as_iter(&data);
        assert!(matches!(it.next(), Some(ItemRef::First(s)) if s == "a"));
    }
    assert_eq!(data.0, "a");
    assert_eq!(data.1, vec![1_u8]);
}

#[test]
fn iter_mut_then_iter_sees_both_changes() {
    let mut data = (1_u8, 2_i8);
    add_one_each(&mut data);
    assert_eq!(data, (2, 3));
    assert_eq!(data.example_values(), [2, 3]);
}

#[test]
fn iter_mut_reports_length() {
    let mut data = (1_u8, 2_i8);
    let mut it = pair::as_iter_mut(&mut data);
    assert_eq!(it.len(), 2);
    assert!(it.next().is_some());
    assert_eq!(it.len(), 1);
    assert!(it.next().is_some());
    assert_eq!(it.len(), 0);
    assert!(it.next().is_none());
}

#[test]
fn scenario_unsigned_and_signed() {
    let mut data = (1_u8, 2_i8);
    let values: Vec<i32> = pair::to_array(&data).into_iter().map(|x| x.value()).collect();
    assert_eq!(values, [1, 2]);
    let mut it = pair::as_iter_mut(&mut data);
    while let Some(mut x) = it.next() {
        x.add_one();
    }
    let mut it = pair::as_iter(&data);
    let mut after: Vec<i32> = Vec::new();
    while let Some(x) = it.next() {
        after.push(x.value());
    }
    assert_eq!(after, [2, 3]);
}

#[test]
fn owned_views_keep_values() {
    let data = (200_u8, -128_i8);
    let direct = [data.0.value(), data.1.value()];
    let [mut a, b] = to_array_owned(data);
    assert_eq!([a.value(), b.value()], direct);
    a.add_one();
    assert_eq!(a.value(), 201);
    assert!(matches!(b, Item::Second(-128)));
}

#[test]
fn owning_iterator_moves_slots_in_order() {
    let mut it = to_iter((String::from("x"), 5_u8));
    assert_eq!(it.len(), 2);
    assert!(matches!(it.next(), Some(Item::First(s)) if s == "x"));
    assert_eq!(it.len(), 1);
    assert!(matches!(it.next(), Some(Item::Second(5))));
    assert_eq!(it.len(), 0);
    assert!(it.next().is_none());
}

#[test]
fn identities_return_their_argument() {
    assert_eq!(identity(5_u8), 5);
    let x = 9_i8;
    assert!(std::ptr::eq(ref_identity(&x), &x));
    let mut y = 1_u8;
    *mut_identity(&mut y) = 4;
    assert_eq!(y, 4);
}

#[test]
fn add_one_reaches_the_top_of_the_range() {
    let mut data = (254_u8, 126_i8);
    add_one_each(&mut data);
    assert_eq!(data, (255, 127));
}
