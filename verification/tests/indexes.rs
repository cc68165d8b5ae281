use mimirsbrunn::indexes::{candidate_indexes, get_indexes_by_type, make_indexes_impl};

#[test]
fn test_make_indexes_impl() {
    // all_data
    assert_eq!(
        make_indexes_impl(true, &None, &None, |_index| true),
        vec!["munin"]
    );

    // no dataset and no types
    assert_eq!(
        make_indexes_impl(false, &None, &None, |_index| true),
        vec!["munin_geo_data"]
    );

    // dataset fr + no types
    assert_eq!(
        make_indexes_impl(false, &Some("munin_stop_fr".to_string()), &None, |_index| true),
        vec!["munin_geo_data", "munin_stop_fr"]
    );

    // no dataset + types poi, city, street, house and public_transport:stop_area
    // => munin_stop is not included
    assert_eq!(
        make_indexes_impl(
            false,
            &None,
            &Some(vec![
                "poi",
                "city",
                "street",
                "house",
                "public_transport:stop_area"
            ]),
            |_index| true
        ),
        vec!["munin_poi", "munin_admin", "munin_street", "munin_addr"]
    );

    // no dataset fr + type public_transport:stop_area only
    assert_eq!(
        make_indexes_impl(
            false,
            &None,
            &Some(vec!["public_transport:stop_area"]),
            |_index| true
        ),
        Vec::<String>::new()
    );

    // dataset fr + types poi, city, street, house and public_transport:stop_area
    assert_eq!(
        make_indexes_impl(
            false,
            &Some("munin_stop_fr".to_string()),
            &Some(vec![
                "poi",
                "city",
                "street",
                "house",
                "public_transport:stop_area"
            ]),
            |_index| true
        ),
        vec![
            "munin_poi",
            "munin_admin",
            "munin_street",
            "munin_addr",
            "munin_stop_fr"
        ]
    );

    // dataset fr types poi, city, street, house without public_transport:stop_area
    //  => munin_stop_fr is not included
    assert_eq!(
        make_indexes_impl(
            false,
            &Some("munin_stop_fr".to_string()),
            &Some(vec!["poi", "city", "street", "house"]),
            |_index| true
        ),
        vec!["munin_poi", "munin_admin", "munin_street", "munin_addr"]
    );
}

#[test]
fn index_name_for_each_token() {
    assert_eq!(get_indexes_by_type("city"), "munin_admin");
    assert_eq!(get_indexes_by_type("house"), "munin_addr");
    assert_eq!(get_indexes_by_type("public_transport:stop_area"), "munin_stop");
    assert_eq!(get_indexes_by_type("poi"), "munin_poi");
    assert_eq!(get_indexes_by_type("street"), "munin_street");
}

#[test]
fn candidates_before_existence_filter() {
    assert_eq!(candidate_indexes(true, &None, &None), vec!["munin"]);
    assert_eq!(
        candidate_indexes(false, &Some("munin_stop_de".to_string()), &None),
        vec!["munin_geo_data", "munin_stop_de"]
    );
    assert_eq!(
        candidate_indexes(false, &None, &Some(vec!["city", "house"])),
        vec!["munin_admin", "munin_addr"]
    );
}

#[test]
fn existence_filter_drops_missing_indexes() {
    // Only the admin index exists; everything else is filtered out.
    let r = make_indexes_impl(
        false,
        &Some("munin_stop_fr".to_string()),
        &Some(vec!["city", "house", "public_transport:stop_area"]),
        |index| index == "munin_admin",
    );
    assert_eq!(r, vec!["munin_admin"]);
}

#[test]
fn all_data_skips_existence_check() {
    // Even an existence predicate that rejects everything keeps the
    // global alias.
    let r = make_indexes_impl(true, &None, &None, |_index| false);
    assert_eq!(r, vec!["munin"]);
}

#[test]
fn colliding_type_token_maps_to_the_dataset_name() {
    // A type token outside the fixed table passes through unchanged, so
    // the token "stop_fr" maps to "munin_stop_fr" even though the
    // stop-area token is absent: the name coincides with the dataset's
    // stop index without that index being consulted.
    let r = make_indexes_impl(
        false,
        &Some("munin_stop_fr".to_string()),
        &Some(vec!["stop_fr"]),
        |_index| true,
    );
    assert_eq!(r, vec!["munin_stop_fr"]);
}
