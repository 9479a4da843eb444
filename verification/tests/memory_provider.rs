use fulfillment::model::{
    FulfillmentStatus, FulfillmentType, LineItemDetails, ProductDetails, Record,
};
use fulfillment::provider::MemoryProvider;
use fulfillment::service::fulfillment::FulfillmentService;
use fulfillment::service::line_item::LineItemService;
use fulfillment::service::order::OrderService;
use fulfillment::service::product::ProductService;
use fulfillment::service::ServiceError;

const STATUSES: [FulfillmentStatus; 4] = [
    FulfillmentStatus::New,
    FulfillmentStatus::Initialized,
    FulfillmentStatus::InProgress,
    FulfillmentStatus::Fulfilled,
];

fn provider() -> MemoryProvider {
    let mut provider = MemoryProvider::new();
    FulfillmentService::init_provider(&mut provider).unwrap();
    LineItemService::init_provider(&mut provider).unwrap();
    provider
}

fn bad_transition() -> Result<(), ServiceError> {
    Err(ServiceError::BadInput(
        "bad fulfillment status transition".to_string(),
    ))
}

fn missing_table(name: &str) -> ServiceError {
    ServiceError::ProviderFailure(format!("no such table: {}", name))
}

fn line_item(fulfillment_id: i64, product_id: i64, quantity: i64) -> LineItemDetails {
    LineItemDetails {
        product_id,
        fulfillment_id,
        quantity,
        quantity_fulfilled: 0,
    }
}

/// A provider with one fulfillment, moved along to `status`.
fn provider_at(status: FulfillmentStatus) -> MemoryProvider {
    let mut provider = provider();
    assert_eq!(
        provider.create_fulfillment(FulfillmentType::StockDelivery),
        Ok(1)
    );
    for step in STATUSES.iter().skip(1) {
        if *step as usize <= status as usize {
            assert_eq!(provider.set_fulfillment_status(&1, *step), Ok(()));
        }
    }
    provider
}

#[test]
fn memory_needs_its_tables() {
    // Line items should require both fulfillment & line item tables
    let mut provider = MemoryProvider::new();

    assert!(provider.create_line_item(1, 1, 1).is_err());
    assert_eq!(
        provider.create_line_item(1, 1, 1),
        Err(missing_table("lineItems"))
    );
    assert_eq!(
        provider.create_fulfillment(FulfillmentType::StockPickUp),
        Err(missing_table("fulfillments"))
    );
    assert_eq!(
        provider.set_fulfillment_status(&1, FulfillmentStatus::Initialized),
        Err(missing_table("fulfillments"))
    );
    assert_eq!(provider.get_line_item(1), Err(missing_table("lineItems")));
    assert_eq!(
        provider.get_line_items_by_fulfillment_id(1),
        Err(missing_table("lineItems"))
    );
    assert_eq!(
        provider.create_product(&"sku".to_string(), &"text".to_string()),
        Err(missing_table("products"))
    );
    assert_eq!(provider.get_product(&1), Err(missing_table("products")));
    assert_eq!(provider.create_order(), Err(missing_table("orders")));

    LineItemService::init_provider(&mut provider).unwrap();
    assert_eq!(
        provider.create_line_item(1, 1, 1),
        Err(missing_table("fulfillments"))
    );
}

#[test]
fn memory_needs_a_fulfillment_for_a_line_item() {
    // Line items should require a valid fulfillment to relate to
    let mut provider = MemoryProvider::new();

    FulfillmentService::init_provider(&mut provider).unwrap();
    LineItemService::init_provider(&mut provider).unwrap();

    assert!(provider.create_line_item(1, 1, 1).is_err());
    assert_eq!(
        provider.create_line_item(1, 1, 1),
        Err(ServiceError::BadInput(
            "can't add line item to fulfillment 1".to_string()
        ))
    );
}

#[test]
fn memory_in_expected_use() {
    let mut provider = MemoryProvider::new();

    FulfillmentService::init_provider(&mut provider).unwrap();
    LineItemService::init_provider(&mut provider).unwrap();

    provider
        .create_fulfillment(FulfillmentType::StockPickUp)
        .unwrap();

    match provider.create_line_item(1, 1, 1) {
        Ok(id) => assert_eq!(id, 1),
        Err(e) => panic!("Expected Ok got {:?}", e),
    };
}

#[test]
fn setting_up_twice_keeps_what_is_stored() {
    let mut provider = provider_at(FulfillmentStatus::New);
    assert_eq!(provider.create_line_item(1, 2, 3), Ok(1));
    FulfillmentService::init_provider(&mut provider).unwrap();
    LineItemService::init_provider(&mut provider).unwrap();
    assert_eq!(
        provider.get_line_item(1),
        Ok(Some(Record {
            id: 1,
            data: line_item(1, 2, 3)
        }))
    );
    assert_eq!(
        provider.create_fulfillment(FulfillmentType::StockPickUp),
        Ok(2)
    );
}

#[test]
fn a_fulfillment_walks_through_its_life() {
    let mut provider = provider();

    assert_eq!(
        provider.create_fulfillment(FulfillmentType::StockPickUp),
        Ok(1)
    );
    assert_eq!(provider.create_line_item(1, 7, 3), Ok(1));
    assert_eq!(
        provider.get_line_item(1),
        Ok(Some(Record {
            id: 1,
            data: line_item(1, 7, 3)
        }))
    );
    assert_eq!(
        provider.set_fulfillment_status(&1, FulfillmentStatus::Initialized),
        Ok(())
    );
    assert_eq!(
        provider.create_line_item(1, 7, 3),
        Err(ServiceError::BadInput(
            "can't add line item to fulfillment 1".to_string()
        ))
    );
    assert_eq!(
        provider.set_fulfillment_status(&1, FulfillmentStatus::Fulfilled),
        bad_transition()
    );
    assert_eq!(
        provider.set_fulfillment_status(&1, FulfillmentStatus::InProgress),
        Ok(())
    );
    assert_eq!(
        provider.set_fulfillment_status(&1, FulfillmentStatus::Fulfilled),
        Ok(())
    );
    assert_eq!(
        provider.get_line_items_by_fulfillment_id(1),
        Ok(vec![Record {
            id: 1,
            data: line_item(1, 7, 3)
        }])
    );
}

#[test]
fn a_new_fulfillment_takes_line_items() {
    // A fresh fulfillment is New: it takes a line item and can only be
    // initialised.
    let mut provider = provider_at(FulfillmentStatus::New);
    assert_eq!(provider.create_line_item(1, 5, 2), Ok(1));
    for target in [
        FulfillmentStatus::New,
        FulfillmentStatus::InProgress,
        FulfillmentStatus::Fulfilled,
    ] {
        assert_eq!(
            provider.set_fulfillment_status(&1, target),
            bad_transition()
        );
    }
    assert_eq!(
        provider.set_fulfillment_status(&1, FulfillmentStatus::Initialized),
        Ok(())
    );
}

#[test]
fn only_the_next_status_is_accepted() {
    for (at, current) in STATUSES.iter().enumerate() {
        for (to, target) in STATUSES.iter().enumerate() {
            let mut provider = provider_at(*current);
            let moved = provider.set_fulfillment_status(&1, *target);
            if to == at + 1 {
                assert_eq!(moved, Ok(()), "{:?} to {:?}", current, target);
                // The status is the new one: only the one after it is
                // accepted now.
                assert_eq!(
                    provider.set_fulfillment_status(&1, *target),
                    bad_transition()
                );
            } else {
                assert_eq!(moved, bad_transition(), "{:?} to {:?}", current, target);
                // Asking again fails in the same way.
                assert_eq!(
                    provider.set_fulfillment_status(&1, *target),
                    bad_transition()
                );
                // The status is unchanged: the next one is still accepted.
                if at + 1 < STATUSES.len() {
                    assert_eq!(
                        provider.set_fulfillment_status(&1, STATUSES[at + 1]),
                        Ok(())
                    );
                }
            }
        }
    }
}

#[test]
fn an_unknown_fulfillment_cannot_be_moved() {
    let mut provider = provider_at(FulfillmentStatus::New);
    for id in [0, 2, -1, i64::MAX, i64::MIN] {
        for target in STATUSES {
            assert_eq!(
                provider.set_fulfillment_status(&id, target),
                bad_transition()
            );
        }
    }
    assert_eq!(provider.create_line_item(1, 1, 1), Ok(1));
}

#[test]
fn of_two_requests_to_initialise_one_wins() {
    let mut provider = provider_at(FulfillmentStatus::New);
    let first = provider.set_fulfillment_status(&1, FulfillmentStatus::Initialized);
    let second = provider.set_fulfillment_status(&1, FulfillmentStatus::Initialized);
    assert_eq!(first, Ok(()));
    assert_eq!(second, bad_transition());
    // It is Initialized, once: the next step is InProgress.
    assert_eq!(
        provider.set_fulfillment_status(&1, FulfillmentStatus::InProgress),
        Ok(())
    );
}

#[test]
fn line_items_attach_to_new_fulfillments_only() {
    for status in STATUSES {
        let mut provider = provider_at(status);
        let created = provider.create_line_item(1, 7, 3);
        if status == FulfillmentStatus::New {
            assert_eq!(created, Ok(1));
            assert_eq!(
                provider.get_line_item(1),
                Ok(Some(Record {
                    id: 1,
                    data: LineItemDetails {
                        product_id: 7,
                        fulfillment_id: 1,
                        quantity: 3,
                        quantity_fulfilled: 0
                    }
                }))
            );
        } else {
            assert_eq!(
                created,
                Err(ServiceError::BadInput(
                    "can't add line item to fulfillment 1".to_string()
                ))
            );
            assert_eq!(provider.get_line_item(1), Ok(None));
            assert_eq!(provider.get_line_items_by_fulfillment_id(1), Ok(vec![]));
        }
    }
}

#[test]
fn line_items_do_not_attach_to_what_is_not_there() {
    let mut provider = provider_at(FulfillmentStatus::New);
    for id in [0, 2, -1, i64::MAX, i64::MIN] {
        assert_eq!(
            provider.create_line_item(id, 7, 3),
            Err(ServiceError::BadInput(format!(
                "can't add line item to fulfillment {}",
                id
            )))
        );
    }
    assert_eq!(provider.get_line_items_by_fulfillment_id(1), Ok(vec![]));
    assert_eq!(provider.get_line_items_by_fulfillment_id(2), Ok(vec![]));
}

#[test]
fn line_items_come_in_the_order_of_their_creation() {
    let mut provider = provider();
    for _ in 0..3 {
        provider
            .create_fulfillment(FulfillmentType::StockPickUp)
            .unwrap();
    }
    assert_eq!(provider.create_line_item(2, 10, 1), Ok(1));
    assert_eq!(provider.create_line_item(1, 11, 2), Ok(2));
    assert_eq!(provider.create_line_item(2, 12, 3), Ok(3));
    assert_eq!(provider.create_line_item(2, 10, 4), Ok(4));
    assert_eq!(provider.create_line_item(1, 13, 5), Ok(5));

    assert_eq!(
        provider.get_line_items_by_fulfillment_id(2),
        Ok(vec![
            Record {
                id: 1,
                data: line_item(2, 10, 1)
            },
            Record {
                id: 3,
                data: line_item(2, 12, 3)
            },
            Record {
                id: 4,
                data: line_item(2, 10, 4)
            },
        ])
    );
    assert_eq!(
        provider.get_line_items_by_fulfillment_id(1),
        Ok(vec![
            Record {
                id: 2,
                data: line_item(1, 11, 2)
            },
            Record {
                id: 5,
                data: line_item(1, 13, 5)
            },
        ])
    );
    assert_eq!(provider.get_line_items_by_fulfillment_id(3), Ok(vec![]));
    assert_eq!(provider.get_line_items_by_fulfillment_id(4), Ok(vec![]));
    for fulfillment in 1..4 {
        let found = provider
            .get_line_items_by_fulfillment_id(fulfillment)
            .unwrap();
        assert!(found.windows(2).all(|pair| pair[0].id < pair[1].id));
        assert!(found
            .iter()
            .all(|record| record.data.fulfillment_id == fulfillment));
    }
}

#[test]
fn a_line_item_is_found_under_its_identifier() {
    let mut provider = provider_at(FulfillmentStatus::New);
    assert_eq!(provider.create_line_item(1, 21, 4), Ok(1));
    assert_eq!(provider.create_line_item(1, 22, 5), Ok(2));
    assert_eq!(
        provider.get_line_item(2),
        Ok(Some(Record {
            id: 2,
            data: line_item(1, 22, 5)
        }))
    );
    for id in [0, 3, -1, i64::MAX, i64::MIN] {
        assert_eq!(provider.get_line_item(id), Ok(None));
    }
}

#[test]
fn fulfillments_are_numbered_from_one() {
    let mut provider = provider();
    assert_eq!(
        provider.create_fulfillment(FulfillmentType::StockPickUp),
        Ok(1)
    );
    assert_eq!(
        provider.create_fulfillment(FulfillmentType::StockDelivery),
        Ok(2)
    );
    assert_eq!(
        provider.set_fulfillment_status(&2, FulfillmentStatus::Initialized),
        Ok(())
    );
    // The first is still New.
    assert_eq!(provider.create_line_item(1, 1, 1), Ok(1));
    assert!(provider.create_line_item(2, 1, 1).is_err());
}

#[test]
fn products_are_stored_and_found() {
    let mut provider = MemoryProvider::new();
    ProductService::init_provider(&mut provider).unwrap();
    assert_eq!(
        provider.get_product(&1),
        Err(ServiceError::ProductNotFound(String::new()))
    );
    assert_eq!(
        provider.create_product(&"A-1".to_string(), &"a thing".to_string()),
        Ok(1)
    );
    assert_eq!(
        provider.create_product(&"B-2".to_string(), &"another".to_string()),
        Ok(2)
    );
    assert_eq!(
        provider.get_product(&2),
        Ok(Record {
            id: 2,
            data: ProductDetails {
                sku: "B-2".to_string(),
                description: "another".to_string()
            }
        })
    );
    for id in [0, 3, -1] {
        assert_eq!(
            provider.get_product(&id),
            Err(ServiceError::ProductNotFound(String::new()))
        );
    }
}

#[test]
fn orders_are_numbered_from_one() {
    let mut provider = MemoryProvider::new();
    OrderService::init_provider(&mut provider).unwrap();
    let result = provider.create_order().unwrap();

    assert_eq!(result, 1);
    assert_eq!(provider.create_order(), Ok(2));
}
