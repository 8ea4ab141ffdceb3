use billing::job::{count_published_products, BaseProduct, Config, Microservice, ModerationStatus, NewSubscription};

fn product(store_id: i32) -> BaseProduct {
    BaseProduct { store_id, status: ModerationStatus::Published }
}

#[test]
fn products_are_counted_by_store() {
    let products = vec![product(4), product(2), product(4), product(4), product(9)];
    let subs = count_published_products(&products);
    assert_eq!(
        subs,
        vec![
            NewSubscription { store_id: 4, published_base_products_quantity: 3 },
            NewSubscription { store_id: 2, published_base_products_quantity: 1 },
            NewSubscription { store_id: 9, published_base_products_quantity: 1 },
        ]
    );
    let total: i32 = subs.iter().map(|s| s.published_base_products_quantity).sum();
    assert_eq!(total as usize, products.len());
    assert!(count_published_products(&vec![]).is_empty());
}

#[test]
fn config_holds_the_services() {
    let c = Config {
        interval_s: 60,
        file_name: "f".to_string(),
        cluster: "c".to_string(),
        thread_count: 2,
        stores_microservice: Microservice { url: "http://stores".to_string() },
        billing_microservice: Microservice { url: "http://billing".to_string() },
    };
    assert_eq!(c.clone().stores_microservice.url, "http://stores");
    assert_ne!(ModerationStatus::Draft, ModerationStatus::Published);
}
