use backend::graphql_api::{
    MutationRoot, OrderItem, OrderStatus, Product, ProductInput, QueryRoot, ShippingOption,
    UsdPrice,
};

const IMAGES: &str =
    "https://github.com/managed-prototypes/ecommerce1/blob/main/webapp/public/nocache/demo-images/";

fn assert_product(product: &Product, id: &str, title: &str, image: &str, price: &str) {
    assert_eq!(product.product_id, id);
    assert_eq!(product.title, title);
    assert_eq!(product.image_url, format!("{}{}?raw=true", IMAGES, image));
    assert_eq!(product.price.as_str(), price);
}

fn assert_catalogue(products: &[Product]) {
    assert_eq!(products.len(), 4);
    assert_product(&products[0], "1", "Black Olives \"Manageed Protiopes\"", "1.jpg", "41.00");
    assert_product(&products[1], "2", "Black Olives \"Managed Prototypes\"", "2.jpg", "42.00");
    assert_product(&products[2], "3", "Assorted Olives \"Managed Prototyipes\"", "3.jpg", "43.00");
    assert_product(&products[3], "4", "Black Olves \"Managed Proptoyiptes\"", "4.jpg", "44.00");
}

fn assert_two_items(items: &[OrderItem]) {
    assert_eq!(items.len(), 2);
    assert_product(&items[0].product, "1", "Black Olives \"Manageed Protiopes\"", "1.jpg", "41.00");
    assert_eq!(items[0].quantity, 2);
    assert_eq!(items[0].item_total.as_str(), "84.00");
    assert_product(&items[1].product, "2", "Black Olives \"Managed Prototypes\"", "2.jpg", "42.00");
    assert_eq!(items[1].quantity, 1);
    assert_eq!(items[1].item_total.as_str(), "43.00");
}

fn assert_one_item(items: &[OrderItem]) {
    assert_eq!(items.len(), 1);
    assert_product(&items[0].product, "1", "Black Olives \"Manageed Protiopes\"", "1.jpg", "41.00");
    assert_eq!(items[0].quantity, 1);
    assert_eq!(items[0].item_total.as_str(), "42.00");
}

fn assert_delivery(option: &ShippingOption) {
    match option {
        ShippingOption::Delivery(delivery) => {
            assert_eq!(delivery.address, "123 Main St, Springfield, IL 62701");
        }
        other => panic!("{:?}", other),
    }
}

fn assert_first_pickup(option: &ShippingOption) {
    match option {
        ShippingOption::Pickup(point) => {
            assert_eq!(point.pickup_point_id, "1");
            assert_eq!(point.title, "Pick-up point 1");
        }
        other => panic!("{:?}", other),
    }
}

fn input() -> ProductInput {
    ProductInput {
        title: "Green Olives".to_string(),
        image_url: "https://example.org/olives.jpg".to_string(),
        price: UsdPrice::new("12.99".to_string()),
    }
}

#[test]
fn products_are_the_sample_catalogue() {
    assert_catalogue(&QueryRoot::products_v1());
    assert_catalogue(&QueryRoot::admin_products_v1());
}

#[test]
fn cart_holds_two_items() {
    let cart = QueryRoot::cart_v1();
    assert_eq!(cart.total.as_str(), "127.00");
    assert_eq!(cart.items.len(), 2);
    assert_product(
        &cart.items[0].product,
        "1",
        "Black Olives \"Manageed Protiopes\"",
        "1.jpg",
        "41.00",
    );
    assert_eq!(cart.items[0].quantity, 2);
    assert_eq!(cart.items[0].item_total.as_str(), "84.00");
    assert_product(
        &cart.items[1].product,
        "2",
        "Black Olives \"Managed Prototypes\"",
        "2.jpg",
        "42.00",
    );
    assert_eq!(cart.items[1].quantity, 1);
    assert_eq!(cart.items[1].item_total.as_str(), "43.00");
}

#[test]
fn pickup_points_are_the_two_samples() {
    let points = QueryRoot::pickup_points_v1();
    assert_eq!(points.len(), 2);
    assert_eq!(points[0].pickup_point_id, "1");
    assert_eq!(points[0].title, "Pick-up point 1");
    assert_eq!(points[1].pickup_point_id, "2");
    assert_eq!(points[1].title, "Pick-up point 2");
}

#[test]
fn my_orders_are_stamped_with_the_given_instants() {
    let orders = QueryRoot::my_orders_v1(1690402698123, 1690402698124);
    assert_eq!(orders.len(), 2);
    assert_eq!(orders[0].order_id, "1");
    assert_eq!(orders[0].created_at.as_str(), "1690402698123");
    assert_two_items(&orders[0].items);
    assert_eq!(orders[0].status, OrderStatus::Delivered);
    assert_eq!(orders[0].total.as_str(), "127.00");
    assert_delivery(&orders[0].shipping_option);
    assert_eq!(orders[1].order_id, "2");
    assert_eq!(orders[1].created_at.as_str(), "1690402698124");
    assert_one_item(&orders[1].items);
    assert_eq!(orders[1].status, OrderStatus::Pending);
    assert_eq!(orders[1].total.as_str(), "42.00");
    assert_first_pickup(&orders[1].shipping_option);
}

#[test]
fn admin_product_carries_the_identifier_asked_for() {
    let product = QueryRoot::admin_product_v1("some-id".to_string());
    assert_product(&product, "some-id", "Black Olives \"Manageed Protiopes\"", "1.jpg", "41.00");
}

#[test]
fn customer_orders_name_their_customers() {
    let orders = QueryRoot::admin_customer_orders_v1(0, u64::MAX);
    assert_eq!(orders.len(), 2);
    assert_eq!(orders[0].order_id, "1");
    assert_eq!(orders[0].created_at.as_str(), "0");
    assert_eq!(orders[0].customer.user_id, "1");
    assert_eq!(orders[0].customer.display_name, "Charles d'Artagnan");
    assert_two_items(&orders[0].items);
    assert_eq!(orders[0].status, OrderStatus::Delivered);
    assert_eq!(orders[0].total.as_str(), "127.00");
    assert_delivery(&orders[0].shipping_option);
    assert_eq!(orders[1].order_id, "2");
    assert_eq!(orders[1].created_at.as_str(), "18446744073709551615");
    assert_eq!(orders[1].customer.user_id, "2");
    assert_eq!(orders[1].customer.display_name, "Kim Kardashian");
    assert_one_item(&orders[1].items);
    assert_eq!(orders[1].status, OrderStatus::Pending);
    assert_eq!(orders[1].total.as_str(), "42.00");
    assert_first_pickup(&orders[1].shipping_option);
}

#[test]
fn mutations_answer_with_the_unit() {
    assert_eq!(MutationRoot::set_cart_product_quantity_v1(input(), 3).as_str(), "");
    assert_eq!(MutationRoot::admin_product_create_v1(input()).as_str(), "");
    assert_eq!(MutationRoot::admin_product_update_v1("1".to_string(), input()).as_str(), "");
    assert_eq!(MutationRoot::admin_product_delete_v1("1".to_string()).as_str(), "");
}
