use sg_cli::configuration::{Attribute, Metadata};
use sg_cli::engine::BatchError;
use sg_cli::export::sort_by_edition;
use sg_cli::functions::{
    change_host_for_images, change_metadata_faded, change_stage, db_init_from_endpoint,
    generate_json_files, restore_images, show_frozen,
};
use sg_cli::helper_funcs::CodecError;
use sg_cli::pass::Report;
use sg_cli::store::Store;
use sg_cli::transform::BLACKOUT_URL;

fn soul(edition: u32, stage: u8, frozen: bool, image: &str) -> Metadata {
    Metadata {
        edition,
        name: format!("Soul #{}", edition),
        description: "One of many".to_string(),
        image: image.to_string(),
        dna: format!("dna-{}", edition),
        stage,
        frozen,
        seller_fee_basis_points: 750,
        fee_recipient: "0xabc".to_string(),
        attributes: vec![
            Attribute { trait_type: "Background".to_string(), value: "Night".to_string() },
            Attribute { trait_type: "Eyes".to_string(), value: "Green".to_string() },
        ],
    }
}

fn store_of(records: Vec<Metadata>) -> Store {
    let mut store = Store::new();
    for record in records {
        store.insert(record).unwrap();
    }
    store
}

fn quiet() -> Report {
    Report { notes: Vec::new(), failure: None }
}

#[test]
fn change_stage_moves_the_example_record() {
    let mut store = store_of(vec![soul(7, 2, false, "https://cdn.example.com/art/2/7.jpg")]);
    assert_eq!(change_stage(3, false, &mut store), quiet());
    assert_eq!(store.fetch_all(), vec![soul(7, 3, false, "https://cdn.example.com/art/3/7.jpg")]);
    assert_eq!(store.current_stage(), 3);
}

#[test]
fn change_host_moves_the_example_record() {
    let mut store = store_of(vec![soul(7, 3, false, "https://cdn.example.com/art/3/7.jpg")]);
    assert_eq!(change_host_for_images("cdn2.example.com", false, &mut store), quiet());
    assert_eq!(store.fetch_all(), vec![soul(7, 3, false, "https://cdn2.example.com/art/3/7.jpg")]);
    assert_eq!(store.current_stage(), 0);
}

#[test]
fn change_stage_leaves_frozen_records_alone() {
    let mut store = store_of(vec![
        soul(1, 2, false, "https://cdn.example.com/art/2/1.jpg"),
        soul(2, 1, true, "https://cdn.example.com/art/1/2.jpg"),
        soul(3, 2, false, "https://cdn.example.com/art/2/3.jpg?v=2"),
    ]);
    let report = change_stage(4, true, &mut store);
    assert_eq!(
        report,
        Report {
            notes: vec![
                "Updated current stage to: 4".to_string(),
                "Updated edition 1 to stage 4".to_string(),
                "Updated edition 3 to stage 4".to_string(),
            ],
            failure: None,
        }
    );
    assert_eq!(
        store.fetch_all(),
        vec![
            soul(1, 4, false, "https://cdn.example.com/art/4/1.jpg"),
            soul(2, 1, true, "https://cdn.example.com/art/1/2.jpg"),
            soul(3, 4, false, "https://cdn.example.com/art/4/3.jpg?v=2"),
        ]
    );
    assert_eq!(store.current_stage(), 4);
}

#[test]
fn change_stage_stops_at_the_first_bad_image_and_keeps_what_is_written() {
    let mut store = store_of(vec![
        soul(1, 2, false, "https://cdn.example.com/art/2/1.jpg"),
        soul(2, 2, false, "https://cdn.example.com/2.jpg"),
        soul(3, 2, false, "https://cdn.example.com/art/2/3.jpg"),
    ]);
    let report = change_stage(5, true, &mut store);
    assert_eq!(
        report,
        Report {
            notes: vec![
                "Updated current stage to: 5".to_string(),
                "Updated edition 1 to stage 5".to_string(),
            ],
            failure: Some(BatchError::Image { edition: 2, cause: CodecError::MalformedPath }),
        }
    );
    assert_eq!(
        store.fetch_all(),
        vec![
            soul(1, 5, false, "https://cdn.example.com/art/5/1.jpg"),
            soul(2, 2, false, "https://cdn.example.com/2.jpg"),
            soul(3, 2, false, "https://cdn.example.com/art/2/3.jpg"),
        ]
    );
    assert_eq!(store.current_stage(), 5);
}

#[test]
fn change_stage_fails_on_an_image_that_is_no_url() {
    let mut store = store_of(vec![soul(1, 2, false, "art/2/1.jpg")]);
    let report = change_stage(5, false, &mut store);
    assert_eq!(
        report.failure,
        Some(BatchError::Image { edition: 1, cause: CodecError::InvalidUrl })
    );
    assert_eq!(store.fetch_all(), vec![soul(1, 2, false, "art/2/1.jpg")]);
}

#[test]
fn change_stage_ignores_a_bad_image_of_a_frozen_record() {
    let mut store = store_of(vec![
        soul(1, 2, true, "nothing"),
        soul(2, 2, false, "https://cdn.example.com/art/2/2.jpg"),
    ]);
    assert_eq!(change_stage(3, false, &mut store), quiet());
    assert_eq!(
        store.fetch_all(),
        vec![soul(1, 2, true, "nothing"), soul(2, 3, false, "https://cdn.example.com/art/3/2.jpg")]
    );
}

#[test]
fn change_stage_on_an_empty_store_sets_the_stage() {
    let mut store = Store::new();
    assert_eq!(
        change_stage(2, true, &mut store),
        Report { notes: vec!["Updated current stage to: 2".to_string()], failure: None }
    );
    assert_eq!(store.current_stage(), 2);
    assert_eq!(store.len(), 0);
}

#[test]
fn change_host_reaches_frozen_records_too() {
    let mut store = store_of(vec![
        soul(1, 2, true, "https://cdn.example.com/art/2/1.jpg"),
        soul(2, 2, false, "https://cdn.example.com/art/2/2.jpg"),
    ]);
    let report = change_host_for_images("media.example.org", true, &mut store);
    assert_eq!(
        report,
        Report {
            notes: vec![
                "Updated host in edition: 1".to_string(),
                "Updated host in edition: 2".to_string(),
            ],
            failure: None,
        }
    );
    assert_eq!(
        store.fetch_all(),
        vec![
            soul(1, 2, true, "https://media.example.org/art/2/1.jpg"),
            soul(2, 2, false, "https://media.example.org/art/2/2.jpg"),
        ]
    );
}

#[test]
fn change_host_stops_at_an_image_that_is_no_url() {
    let mut store = store_of(vec![
        soul(1, 2, false, "https://cdn.example.com/art/2/1.jpg"),
        soul(2, 2, false, "nothing"),
    ]);
    let report = change_host_for_images("media.example.org", false, &mut store);
    assert_eq!(
        report.failure,
        Some(BatchError::Image { edition: 2, cause: CodecError::HostRewrite })
    );
    assert_eq!(
        store.fetch_all(),
        vec![soul(1, 2, false, "https://media.example.org/art/2/1.jpg"), soul(2, 2, false, "nothing")]
    );
}

#[test]
fn blackout_replaces_every_image_that_is_not_frozen() {
    let mut store = store_of(vec![
        soul(1, 2, false, "https://cdn.example.com/art/2/1.jpg"),
        soul(2, 2, true, "https://cdn.example.com/art/2/2.jpg"),
        soul(3, 1, false, "not even a url"),
    ]);
    let report = change_metadata_faded(100, true, &mut store);
    assert_eq!(
        report,
        Report {
            notes: vec![
                "Updated edition 1 -> https://sg-data.fra1.cdn.digitaloceanspaces.com/black.jpg"
                    .to_string(),
                "Updated edition 3 -> https://sg-data.fra1.cdn.digitaloceanspaces.com/black.jpg"
                    .to_string(),
            ],
            failure: None,
        }
    );
    assert_eq!(
        store.fetch_all(),
        vec![
            soul(1, 2, false, BLACKOUT_URL),
            soul(2, 2, true, "https://cdn.example.com/art/2/2.jpg"),
            soul(3, 1, false, BLACKOUT_URL),
        ]
    );
}

#[test]
fn fading_points_to_the_bucket_of_the_opacity() {
    let mut store = store_of(vec![
        soul(12, 2, false, "https://cdn.example.com/art/2/12.jpg?x=1"),
        soul(13, 2, true, "https://cdn.example.com/art/2/13.jpg"),
    ]);
    assert_eq!(change_metadata_faded(35, false, &mut store), quiet());
    assert_eq!(
        store.fetch_all(),
        vec![
            soul(12, 2, false, "https://cdn.example.com/faded35/4/12.jpg?x=1"),
            soul(13, 2, true, "https://cdn.example.com/art/2/13.jpg"),
        ]
    );
    let report = change_metadata_faded(45, true, &mut store);
    assert_eq!(
        report.notes,
        vec!["Updated edition 12 -> https://cdn.example.com/faded45/4/12.jpg?x=1".to_string()]
    );
    assert_eq!(store.get(12).unwrap().image, "https://cdn.example.com/faded45/4/12.jpg?x=1");
    assert_eq!(store.get(12).unwrap().stage, 2);
}

#[test]
fn fading_with_another_opacity_writes_nothing() {
    let records = vec![
        soul(1, 2, false, "https://cdn.example.com/art/2/1.jpg"),
        soul(2, 2, true, "https://cdn.example.com/art/2/2.jpg"),
    ];
    for opacity in [0u8, 34, 36, 44, 46, 99, 101, 255] {
        let mut store = store_of(records.clone());
        store.set_current_stage(2);
        let report = change_metadata_faded(opacity, true, &mut store);
        assert_eq!(
            report,
            Report { notes: Vec::new(), failure: Some(BatchError::InvalidOpacity { opacity }) }
        );
        assert_eq!(store.fetch_all(), records);
        assert_eq!(store.current_stage(), 2);
    }
}

#[test]
fn fading_with_another_opacity_fails_on_an_empty_store_too() {
    let mut store = Store::new();
    assert_eq!(
        change_metadata_faded(50, false, &mut store).failure,
        Some(BatchError::InvalidOpacity { opacity: 50 })
    );
}

#[test]
fn restore_without_force_reaches_only_what_is_not_frozen() {
    let mut store = store_of(vec![
        soul(1, 3, false, "https://cdn.example.com/faded35/4/1.jpg"),
        soul(2, 1, true, "https://cdn.example.com/faded35/4/2.jpg"),
    ]);
    let report = restore_images(true, false, &mut store);
    assert_eq!(
        report,
        Report {
            notes: vec!["Updated edition 1 -> https://cdn.example.com/images/3/1.jpg".to_string()],
            failure: None,
        }
    );
    assert_eq!(
        store.fetch_all(),
        vec![
            soul(1, 3, false, "https://cdn.example.com/images/3/1.jpg"),
            soul(2, 1, true, "https://cdn.example.com/faded35/4/2.jpg"),
        ]
    );
}

#[test]
fn restore_with_force_reaches_every_record() {
    let mut store = store_of(vec![
        soul(1, 3, false, BLACKOUT_URL),
        soul(2, 1, true, "https://cdn.example.com/faded35/4/2.jpg?x=1"),
    ]);
    assert_eq!(restore_images(false, true, &mut store), quiet());
    assert_eq!(
        store.fetch_all(),
        vec![
            soul(1, 3, false, "https://sg-data.fra1.cdn.digitaloceanspaces.com/images/3/1.jpg"),
            soul(2, 1, true, "https://cdn.example.com/images/1/2.jpg?x=1"),
        ]
    );
}

#[test]
fn restore_stops_at_an_image_that_is_no_url() {
    let mut store = store_of(vec![soul(1, 3, false, "nothing")]);
    assert_eq!(
        restore_images(false, false, &mut store).failure,
        Some(BatchError::Image { edition: 1, cause: CodecError::InvalidUrl })
    );
}

#[test]
fn frozen_report_hands_out_each_line_once() {
    let store = store_of(vec![
        soul(1, 3, true, "https://cdn.example.com/art/3/1.jpg"),
        soul(2, 1, false, "https://cdn.example.com/art/1/2.jpg"),
        soul(3, 0, true, "https://cdn.example.com/art/0/3.jpg"),
    ]);
    let mut report = show_frozen(&store);
    assert_eq!(
        report.next_line(),
        Some("IMAGE STAGE\nhttps://cdn.example.com/art/3/1.jpg 3".to_string())
    );
    assert_eq!(
        report.next_line(),
        Some("IMAGE STAGE\nhttps://cdn.example.com/art/0/3.jpg 0".to_string())
    );
    assert_eq!(report.next_line(), None);
    assert_eq!(report.next_line(), None);
    assert_eq!(store.len(), 3);
}

#[test]
fn frozen_report_of_a_store_without_frozen_records_is_empty() {
    let store = store_of(vec![soul(2, 1, false, "https://cdn.example.com/art/1/2.jpg")]);
    assert_eq!(show_frozen(&store).next_line(), None);
}

#[test]
fn import_fills_a_store_in_order() {
    let incoming = vec![
        soul(2, 0, false, "https://cdn.example.com/art/0/2.jpg"),
        soul(1, 0, true, "https://cdn.example.com/art/0/1.jpg"),
    ];
    let mut store = Store::new();
    let report = db_init_from_endpoint(incoming.clone(), &mut store);
    assert_eq!(
        report,
        Report {
            notes: vec!["Inserting metadata: 2".to_string(), "Inserting metadata: 1".to_string()],
            failure: None,
        }
    );
    assert_eq!(store.fetch_all(), incoming);
}

#[test]
fn import_stops_at_a_taken_edition() {
    let mut store = store_of(vec![soul(2, 0, false, "https://cdn.example.com/art/0/2.jpg")]);
    let report = db_init_from_endpoint(
        vec![
            soul(1, 0, false, "https://cdn.example.com/art/0/1.jpg"),
            soul(2, 5, true, "https://cdn.example.com/art/5/2.jpg"),
            soul(3, 0, false, "https://cdn.example.com/art/0/3.jpg"),
        ],
        &mut store,
    );
    assert_eq!(
        report,
        Report {
            notes: vec!["Inserting metadata: 1".to_string(), "Inserting metadata: 2".to_string()],
            failure: Some(BatchError::Store { cause: "duplicate edition 2".to_string() }),
        }
    );
    assert_eq!(
        store.fetch_all(),
        vec![
            soul(2, 0, false, "https://cdn.example.com/art/0/2.jpg"),
            soul(1, 0, false, "https://cdn.example.com/art/0/1.jpg"),
        ]
    );
}

#[test]
fn import_stops_at_an_edition_that_comes_twice() {
    let mut store = Store::new();
    let report = db_init_from_endpoint(
        vec![
            soul(1, 0, false, "https://cdn.example.com/art/0/1.jpg"),
            soul(1, 0, false, "https://cdn.example.com/art/0/1.jpg"),
        ],
        &mut store,
    );
    assert_eq!(
        report.failure,
        Some(BatchError::Store { cause: "duplicate edition 1".to_string() })
    );
    assert_eq!(store.len(), 1);
}

#[test]
fn export_holds_every_record_by_edition() {
    let store = store_of(vec![
        soul(30, 1, false, "https://cdn.example.com/art/1/30.jpg"),
        soul(4, 1, true, "https://cdn.example.com/art/1/4.jpg"),
        soul(17, 1, false, "https://cdn.example.com/art/1/17.jpg"),
    ]);
    let dump = generate_json_files(&store, 1_650_000_000).unwrap();
    assert_eq!(dump.directory, "json-dumps");
    assert_eq!(dump.file_name, "2022-04-15_05-20-00.json");
    assert_eq!(
        dump.records,
        vec![
            soul(4, 1, true, "https://cdn.example.com/art/1/4.jpg"),
            soul(17, 1, false, "https://cdn.example.com/art/1/17.jpg"),
            soul(30, 1, false, "https://cdn.example.com/art/1/30.jpg"),
        ]
    );
    assert_eq!(store.len(), 3);
}

#[test]
fn export_then_import_gives_the_same_records() {
    let records = vec![
        soul(1, 1, false, "https://cdn.example.com/art/1/1.jpg"),
        soul(2, 3, true, "https://cdn.example.com/art/3/2.jpg"),
        soul(5, 0, false, "https://cdn.example.com/art/0/5.jpg"),
    ];
    let store = store_of(records.clone());
    let dump = generate_json_files(&store, 0).unwrap();
    assert_eq!(dump.file_name, "1970-01-01_00-00-00.json");
    let mut fresh = Store::new();
    assert_eq!(db_init_from_endpoint(dump.records, &mut fresh).failure, None);
    assert_eq!(fresh.fetch_all(), records);
}

#[test]
fn export_has_no_name_for_a_moment_without_a_date() {
    let store = Store::new();
    assert_eq!(generate_json_files(&store, i64::MAX), None);
    assert_eq!(generate_json_files(&store, i64::MIN), None);
}

#[test]
fn sorting_orders_by_edition_and_keeps_every_record() {
    let sorted = sort_by_edition(vec![
        soul(3, 0, false, "c"),
        soul(1, 0, false, "a"),
        soul(2, 0, true, "b"),
        soul(0, 0, false, "z"),
    ]);
    let editions: Vec<u32> = sorted.iter().map(|record| record.edition).collect();
    assert_eq!(editions, vec![0, 1, 2, 3]);
    assert_eq!(sorted[2], soul(2, 0, true, "b"));
    assert!(sort_by_edition(Vec::new()).is_empty());
}
