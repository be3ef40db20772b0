//! The storefront's scalars and the sample data that its queries answer with.

use vstd::prelude::*;
use vstd::std_specs::convert::FromSpecImpl;
use vstd::string::*;

verus! {

/// The character of a decimal digit.
pub open spec fn digit(value: nat) -> char
    recommends
        value < 10,
{
    (0x30 + value) as u8 as char
}

/// A number in decimal, without sign or leading zeros.
pub open spec fn decimal(n: nat) -> Seq<char>
    decreases n,
{
    if n < 10 {
        seq![digit(n)]
    } else {
        decimal(n / 10).push(digit(n % 10))
    }
}

fn digit_text(value: u8) -> (text: &'static str)
    requires
        value < 10,
    ensures
        text@ == seq![digit(value as nat)],
{
    proof {
        reveal_strlit("0");
        reveal_strlit("1");
        reveal_strlit("2");
        reveal_strlit("3");
        reveal_strlit("4");
        reveal_strlit("5");
        reveal_strlit("6");
        reveal_strlit("7");
        reveal_strlit("8");
        reveal_strlit("9");
    }
    let text = match value {
        0 => "0",
        1 => "1",
        2 => "2",
        3 => "3",
        4 => "4",
        5 => "5",
        6 => "6",
        7 => "7",
        8 => "8",
        _ => "9",
    };
    assert(text@ =~= seq![digit(value as nat)]);
    text
}

/// Writes a number in decimal.
pub fn decimal_string(n: u128) -> (text: String)
    ensures
        text@ == decimal(n as nat),
{
    let mut text = String::from_str(digit_text((n % 10) as u8));
    let mut rest: u128 = n / 10;
    assert(decimal(n as nat) =~= if rest > 0 {
        decimal(rest as nat) + text@
    } else {
        text@
    });
    while rest > 0
        invariant
            decimal(n as nat) == if rest > 0 {
                decimal(rest as nat) + text@
            } else {
                text@
            },
        decreases rest,
    {
        let ghost before = text@;
        text = String::from_str(digit_text((rest % 10) as u8)).concat(text.as_str());
        assert(decimal(rest as nat) + before =~= if rest / 10 > 0 {
            decimal((rest / 10) as nat) + text@
        } else {
            text@
        });
        rest = rest / 10;
    }
    text
}

/// UNIX timestamp, millis, as a string.
#[derive(Debug)]
pub struct Timestamp(String);

impl View for Timestamp {
    type V = Seq<char>;

    closed spec fn view(&self) -> Seq<char> {
        self.0@
    }
}

impl Timestamp {
    /// The text that the value holds.
    pub fn as_str(&self) -> (text: &str)
        ensures
            text@ == self@,
    {
        self.0.as_str()
    }
}

impl From<u128> for Timestamp {
    fn from(millis: u128) -> (timestamp: Timestamp)
        ensures
            timestamp@ == decimal(millis as nat),
    {
        Timestamp(decimal_string(millis))
    }
}

impl FromSpecImpl<u128> for Timestamp {
    open spec fn obeys_from_spec() -> bool {
        false
    }

    open spec fn from_spec(millis: u128) -> Timestamp {
        arbitrary()
    }
}

impl From<u64> for Timestamp {
    fn from(millis: u64) -> (timestamp: Timestamp)
        ensures
            timestamp@ == decimal(millis as nat),
    {
        Timestamp(decimal_string(millis as u128))
    }
}

impl FromSpecImpl<u64> for Timestamp {
    open spec fn obeys_from_spec() -> bool {
        false
    }

    open spec fn from_spec(millis: u64) -> Timestamp {
        arbitrary()
    }
}

/// Unit, an empty string.
#[derive(Debug)]
pub struct Unit(String);

impl View for Unit {
    type V = Seq<char>;

    closed spec fn view(&self) -> Seq<char> {
        self.0@
    }
}

impl Unit {
    /// The text that the value holds.
    pub fn as_str(&self) -> (text: &str)
        ensures
            text@ == self@,
    {
        self.0.as_str()
    }
}

impl From<()> for Unit {
    fn from(_unit: ()) -> (unit: Unit)
        ensures
            unit@ == Seq::<char>::empty(),
    {
        Unit(String::new())
    }
}

impl FromSpecImpl<()> for Unit {
    open spec fn obeys_from_spec() -> bool {
        false
    }

    open spec fn from_spec(_unit: ()) -> Unit {
        arbitrary()
    }
}

/// USD price, as a string containing decimal value, non-negative, 2 decimal
/// places. e.g. 12.99
#[derive(Debug)]
pub struct UsdPrice(String);

impl View for UsdPrice {
    type V = Seq<char>;

    closed spec fn view(&self) -> Seq<char> {
        self.0@
    }
}

impl UsdPrice {
    /// A price that holds `text`.
    pub fn new(text: String) -> (price: UsdPrice)
        ensures
            price@ == text@,
    {
        UsdPrice(text)
    }

    /// The text that the value holds.
    pub fn as_str(&self) -> (text: &str)
        ensures
            text@ == self@,
    {
        self.0.as_str()
    }
}

/// USD amount, as a string containing decimal value, non-negative, 2 decimal
/// places. e.g. 12.99
#[derive(Debug)]
pub struct UsdAmount(String);

impl View for UsdAmount {
    type V = Seq<char>;

    closed spec fn view(&self) -> Seq<char> {
        self.0@
    }
}

impl UsdAmount {
    /// An amount that holds `text`.
    pub fn new(text: String) -> (amount: UsdAmount)
        ensures
            amount@ == text@,
    {
        UsdAmount(text)
    }

    /// The text that the value holds.
    pub fn as_str(&self) -> (text: &str)
        ensures
            text@ == self@,
    {
        self.0.as_str()
    }
}

/// What a client sends to describe a product.
#[derive(Debug)]
pub struct ProductInput {
    pub title: String,
    pub image_url: String,
    pub price: UsdPrice,
}

/// A product to be displayed in the store.
#[derive(Debug)]
pub struct Product {
    pub product_id: String,
    pub title: String,
    pub image_url: String,
    /// For the shop and the cart the current price, for an order the price
    /// at the moment of the order.
    pub price: UsdPrice,
}

/// An item to be displayed in the cart.
#[derive(Debug)]
pub struct CartItem {
    pub product: Product,
    pub quantity: i32,
    pub item_total: UsdAmount,
}

/// Cart contents.
#[derive(Debug)]
pub struct Cart {
    pub items: Vec<CartItem>,
    pub total: UsdAmount,
}

/// Pick-up point for the order.
#[derive(Debug)]
pub struct PickupPoint {
    pub pickup_point_id: String,
    pub title: String,
}

/// Order status.
#[derive(Clone, Copy, Debug, PartialEq, Eq)]
pub enum OrderStatus {
    Pending,
    Shipped,
    Delivered,
    Cancelled,
}

/// Order item.
#[derive(Debug)]
pub struct OrderItem {
    pub product: Product,
    pub quantity: i32,
    pub item_total: UsdAmount,
}

/// Shipping option: delivery.
#[derive(Debug)]
pub struct ShippingOptionDelivery {
    pub address: String,
}

/// Shipping option.
#[derive(Debug)]
pub enum ShippingOption {
    Pickup(PickupPoint),
    Delivery(ShippingOptionDelivery),
}

/// Order.
#[derive(Debug)]
pub struct Order {
    pub order_id: String,
    pub created_at: Timestamp,
    pub items: Vec<OrderItem>,
    pub status: OrderStatus,
    pub total: UsdAmount,
    pub shipping_option: ShippingOption,
}

/// Customer.
#[derive(Debug)]
pub struct Customer {
    pub user_id: String,
    pub display_name: String,
}

/// Admin: customer's order.
#[derive(Debug)]
pub struct CustomerOrder {
    pub order_id: String,
    pub created_at: Timestamp,
    pub customer: Customer,
    pub items: Vec<OrderItem>,
    pub status: OrderStatus,
    pub total: UsdAmount,
    pub shipping_option: ShippingOption,
}

/// The model of a `Product`.
pub struct ProductModel {
    pub product_id: Seq<char>,
    pub title: Seq<char>,
    pub image_url: Seq<char>,
    pub price: Seq<char>,
}

/// The model of a `CartItem` and of an `OrderItem`.
pub struct ItemModel {
    pub product: ProductModel,
    pub quantity: int,
    pub item_total: Seq<char>,
}

/// The model of a `Cart`.
pub struct CartModel {
    pub items: Seq<ItemModel>,
    pub total: Seq<char>,
}

/// The model of a `PickupPoint`.
pub struct PickupPointModel {
    pub pickup_point_id: Seq<char>,
    pub title: Seq<char>,
}

/// The model of a `ShippingOption`.
pub enum ShippingModel {
    Pickup(PickupPointModel),
    Delivery { address: Seq<char> },
}

/// The model of a `Customer`.
pub struct CustomerModel {
    pub user_id: Seq<char>,
    pub display_name: Seq<char>,
}

/// The model of an `Order`, and with a customer that of a `CustomerOrder`.
pub struct OrderModel {
    pub order_id: Seq<char>,
    pub created_at: Seq<char>,
    pub customer: Option<CustomerModel>,
    pub items: Seq<ItemModel>,
    pub status: OrderStatus,
    pub total: Seq<char>,
    pub shipping_option: ShippingModel,
}

impl View for Product {
    type V = ProductModel;

    open spec fn view(&self) -> ProductModel {
        ProductModel {
            product_id: self.product_id@,
            title: self.title@,
            image_url: self.image_url@,
            price: self.price@,
        }
    }
}

impl View for CartItem {
    type V = ItemModel;

    open spec fn view(&self) -> ItemModel {
        ItemModel {
            product: self.product@,
            quantity: self.quantity as int,
            item_total: self.item_total@,
        }
    }
}

impl View for OrderItem {
    type V = ItemModel;

    open spec fn view(&self) -> ItemModel {
        ItemModel {
            product: self.product@,
            quantity: self.quantity as int,
            item_total: self.item_total@,
        }
    }
}

impl View for Cart {
    type V = CartModel;

    open spec fn view(&self) -> CartModel {
        CartModel { items: self.items@.map_values(|item: CartItem| item@), total: self.total@ }
    }
}

impl View for PickupPoint {
    type V = PickupPointModel;

    open spec fn view(&self) -> PickupPointModel {
        PickupPointModel { pickup_point_id: self.pickup_point_id@, title: self.title@ }
    }
}

impl View for ShippingOption {
    type V = ShippingModel;

    open spec fn view(&self) -> ShippingModel {
        match *self {
            ShippingOption::Pickup(point) => ShippingModel::Pickup(point@),
            ShippingOption::Delivery(delivery) => ShippingModel::Delivery {
                address: delivery.address@,
            },
        }
    }
}

impl View for Customer {
    type V = CustomerModel;

    open spec fn view(&self) -> CustomerModel {
        CustomerModel { user_id: self.user_id@, display_name: self.display_name@ }
    }
}

impl View for Order {
    type V = OrderModel;

    open spec fn view(&self) -> OrderModel {
        OrderModel {
            order_id: self.order_id@,
            created_at: self.created_at@,
            customer: None,
            items: self.items@.map_values(|item: OrderItem| item@),
            status: self.status,
            total: self.total@,
            shipping_option: self.shipping_option@,
        }
    }
}

impl View for CustomerOrder {
    type V = OrderModel;

    open spec fn view(&self) -> OrderModel {
        OrderModel {
            order_id: self.order_id@,
            created_at: self.created_at@,
            customer: Some(self.customer@),
            items: self.items@.map_values(|item: OrderItem| item@),
            status: self.status,
            total: self.total@,
            shipping_option: self.shipping_option@,
        }
    }
}

/// The four products of the sample catalogue, by number.
pub open spec fn sample_product(number: int) -> ProductModel {
    if number == 1 {
        ProductModel {
            product_id: "1"@,
            title: "Black Olives \"Manageed Protiopes\""@,
            image_url: "https://github.com/managed-prototypes/ecommerce1/blob/main/webapp/public/nocache/demo-images/1.jpg?raw=true"@,
            price: "41.00"@,
        }
    } else if number == 2 {
        ProductModel {
            product_id: "2"@,
            title: "Black Olives \"Managed Prototypes\""@,
            image_url: "https://github.com/managed-prototypes/ecommerce1/blob/main/webapp/public/nocache/demo-images/2.jpg?raw=true"@,
            price: "42.00"@,
        }
    } else if number == 3 {
        ProductModel {
            product_id: "3"@,
            title: "Assorted Olives \"Managed Prototyipes\""@,
            image_url: "https://github.com/managed-prototypes/ecommerce1/blob/main/webapp/public/nocache/demo-images/3.jpg?raw=true"@,
            price: "43.00"@,
        }
    } else {
        ProductModel {
            product_id: "4"@,
            title: "Black Olves \"Managed Proptoyiptes\""@,
            image_url: "https://github.com/managed-prototypes/ecommerce1/blob/main/webapp/public/nocache/demo-images/4.jpg?raw=true"@,
            price: "44.00"@,
        }
    }
}

/// The whole sample catalogue.
pub open spec fn sample_products() -> Seq<ProductModel> {
    seq![sample_product(1), sample_product(2), sample_product(3), sample_product(4)]
}

/// Two of the first product and one of the second.
pub open spec fn sample_items() -> Seq<ItemModel> {
    seq![
        ItemModel { product: sample_product(1), quantity: 2, item_total: "84.00"@ },
        ItemModel { product: sample_product(2), quantity: 1, item_total: "43.00"@ },
    ]
}

/// One of the first product.
pub open spec fn sample_single_item() -> Seq<ItemModel> {
    seq![ItemModel { product: sample_product(1), quantity: 1, item_total: "42.00"@ }]
}

/// The sample cart.
pub open spec fn sample_cart() -> CartModel {
    CartModel { items: sample_items(), total: "127.00"@ }
}

/// The two sample pick-up points, by number.
pub open spec fn sample_pickup_point(number: int) -> PickupPointModel {
    if number == 1 {
        PickupPointModel { pickup_point_id: "1"@, title: "Pick-up point 1"@ }
    } else {
        PickupPointModel { pickup_point_id: "2"@, title: "Pick-up point 2"@ }
    }
}

/// The two sample customers, by number.
pub open spec fn sample_customer(number: int) -> CustomerModel {
    if number == 1 {
        CustomerModel { user_id: "1"@, display_name: "Charles d'Artagnan"@ }
    } else {
        CustomerModel { user_id: "2"@, display_name: "Kim Kardashian"@ }
    }
}

/// The two sample orders, by number: a delivered one of two items and a
/// pending one of a single item to be picked up. Each is created at the
/// given instant and placed by the given customer, if any.
pub open spec fn sample_order(number: int, created_at: nat, customer: Option<CustomerModel>) -> OrderModel {
    if number == 1 {
        OrderModel {
            order_id: "1"@,
            created_at: decimal(created_at),
            customer,
            items: sample_items(),
            status: OrderStatus::Delivered,
            total: "127.00"@,
            shipping_option: ShippingModel::Delivery {
                address: "123 Main St, Springfield, IL 62701"@,
            },
        }
    } else {
        OrderModel {
            order_id: "2"@,
            created_at: decimal(created_at),
            customer,
            items: sample_single_item(),
            status: OrderStatus::Pending,
            total: "42.00"@,
            shipping_option: ShippingModel::Pickup(sample_pickup_point(1)),
        }
    }
}

fn product(number: u8) -> (product: Product)
    requires
        1 <= number <= 4,
    ensures
        product@ == sample_product(number as int),
{
    if number == 1 {
        Product {
            product_id: String::from_str("1"),
            title: String::from_str("Black Olives \"Manageed Protiopes\""),
            image_url: String::from_str(
                "https://github.com/managed-prototypes/ecommerce1/blob/main/webapp/public/nocache/demo-images/1.jpg?raw=true",
            ),
            price: UsdPrice(String::from_str("41.00")),
        }
    } else if number == 2 {
        Product {
            product_id: String::from_str("2"),
            title: String::from_str("Black Olives \"Managed Prototypes\""),
            image_url: String::from_str(
                "https://github.com/managed-prototypes/ecommerce1/blob/main/webapp/public/nocache/demo-images/2.jpg?raw=true",
            ),
            price: UsdPrice(String::from_str("42.00")),
        }
    } else if number == 3 {
        Product {
            product_id: String::from_str("3"),
            title: String::from_str("Assorted Olives \"Managed Prototyipes\""),
            image_url: String::from_str(
                "https://github.com/managed-prototypes/ecommerce1/blob/main/webapp/public/nocache/demo-images/3.jpg?raw=true",
            ),
            price: UsdPrice(String::from_str("43.00")),
        }
    } else {
        Product {
            product_id: String::from_str("4"),
            title: String::from_str("Black Olves \"Managed Proptoyiptes\""),
            image_url: String::from_str(
                "https://github.com/managed-prototypes/ecommerce1/blob/main/webapp/public/nocache/demo-images/4.jpg?raw=true",
            ),
            price: UsdPrice(String::from_str("44.00")),
        }
    }
}

fn products() -> (products: Vec<Product>)
    ensures
        products@.map_values(|product: Product| product@) == sample_products(),
{
    let mut products: Vec<Product> = Vec::new();
    products.push(product(1));
    products.push(product(2));
    products.push(product(3));
    products.push(product(4));
    assert(products@.map_values(|product: Product| product@) =~= sample_products());
    products
}

fn order_items() -> (items: Vec<OrderItem>)
    ensures
        items@.map_values(|item: OrderItem| item@) == sample_items(),
{
    let mut items: Vec<OrderItem> = Vec::new();
    items.push(
        OrderItem {
            product: product(1),
            quantity: 2,
            item_total: UsdAmount(String::from_str("84.00")),
        },
    );
    items.push(
        OrderItem {
            product: product(2),
            quantity: 1,
            item_total: UsdAmount(String::from_str("43.00")),
        },
    );
    assert(items@.map_values(|item: OrderItem| item@) =~= sample_items());
    items
}

fn single_order_item() -> (items: Vec<OrderItem>)
    ensures
        items@.map_values(|item: OrderItem| item@) == sample_single_item(),
{
    let mut items: Vec<OrderItem> = Vec::new();
    items.push(
        OrderItem {
            product: product(1),
            quantity: 1,
            item_total: UsdAmount(String::from_str("42.00")),
        },
    );
    assert(items@.map_values(|item: OrderItem| item@) =~= sample_single_item());
    items
}

fn pickup_point(number: u8) -> (point: PickupPoint)
    requires
        1 <= number <= 2,
    ensures
        point@ == sample_pickup_point(number as int),
{
    if number == 1 {
        PickupPoint {
            pickup_point_id: String::from_str("1"),
            title: String::from_str("Pick-up point 1"),
        }
    } else {
        PickupPoint {
            pickup_point_id: String::from_str("2"),
            title: String::from_str("Pick-up point 2"),
        }
    }
}

fn customer(number: u8) -> (customer: Customer)
    requires
        1 <= number <= 2,
    ensures
        customer@ == sample_customer(number as int),
{
    if number == 1 {
        Customer {
            user_id: String::from_str("1"),
            display_name: String::from_str("Charles d'Artagnan"),
        }
    } else {
        Customer { user_id: String::from_str("2"), display_name: String::from_str("Kim Kardashian") }
    }
}

fn delivery() -> (option: ShippingOption)
    ensures
        option@ == (ShippingModel::Delivery { address: "123 Main St, Springfield, IL 62701"@ }),
{
    ShippingOption::Delivery(
        ShippingOptionDelivery { address: String::from_str("123 Main St, Springfield, IL 62701") },
    )
}

/// The queries of the storefront. Each answers with sample data.
pub struct QueryRoot;

impl QueryRoot {
    /// The products on offer.
    pub fn products_v1() -> (products: Vec<Product>)
        ensures
            products@.map_values(|product: Product| product@) == sample_products(),
    {
        products()
    }

    /// The caller's cart.
    pub fn cart_v1() -> (cart: Cart)
        ensures
            cart@ == sample_cart(),
    {
        let mut items: Vec<CartItem> = Vec::new();
        items.push(
            CartItem {
                product: product(1),
                quantity: 2,
                item_total: UsdAmount(String::from_str("84.00")),
            },
        );
        items.push(
            CartItem {
                product: product(2),
                quantity: 1,
                item_total: UsdAmount(String::from_str("43.00")),
            },
        );
        assert(items@.map_values(|item: CartItem| item@) =~= sample_items());
        Cart { items, total: UsdAmount(String::from_str("127.00")) }
    }

    /// The pick-up points on offer.
    pub fn pickup_points_v1() -> (points: Vec<PickupPoint>)
        ensures
            points@.map_values(|point: PickupPoint| point@) == seq![
                sample_pickup_point(1),
                sample_pickup_point(2),
            ],
    {
        let mut points: Vec<PickupPoint> = Vec::new();
        points.push(pickup_point(1));
        points.push(pickup_point(2));
        assert(points@.map_values(|point: PickupPoint| point@) =~= seq![
            sample_pickup_point(1),
            sample_pickup_point(2),
        ]);
        points
    }

    /// The caller's orders. Each is stamped with the instant, in UNIX
    /// milliseconds, at which the clock was read for it.
    pub fn my_orders_v1(first_millis: u64, second_millis: u64) -> (orders: Vec<Order>)
        ensures
            orders@.map_values(|order: Order| order@) == seq![
                sample_order(1, first_millis as nat, None),
                sample_order(2, second_millis as nat, None),
            ],
    {
        let order1 = Order {
            order_id: String::from_str("1"),
            created_at: Timestamp::from(first_millis),
            items: order_items(),
            status: OrderStatus::Delivered,
            total: UsdAmount(String::from_str("127.00")),
            shipping_option: delivery(),
        };
        let order2 = Order {
            order_id: String::from_str("2"),
            created_at: Timestamp::from(second_millis),
            items: single_order_item(),
            status: OrderStatus::Pending,
            total: UsdAmount(String::from_str("42.00")),
            shipping_option: ShippingOption::Pickup(pickup_point(1)),
        };
        let mut orders: Vec<Order> = Vec::new();
        orders.push(order1);
        orders.push(order2);
        assert(orders@.map_values(|order: Order| order@) =~= seq![
            sample_order(1, first_millis as nat, None),
            sample_order(2, second_millis as nat, None),
        ]);
        orders
    }

    /// The products, as an administrator sees them.
    pub fn admin_products_v1() -> (products: Vec<Product>)
        ensures
            products@.map_values(|product: Product| product@) == sample_products(),
    {
        products()
    }

    /// One product, as an administrator sees it: the first sample product
    /// under the identifier asked for.
    pub fn admin_product_v1(product_id: String) -> (product: Product)
        ensures
            product@ == (ProductModel { product_id: product_id@, ..sample_product(1) }),
    {
        let first = product(1);
        Product {
            product_id,
            title: first.title,
            image_url: first.image_url,
            price: first.price,
        }
    }

    /// The orders of all customers. Each is stamped with the instant, in
    /// UNIX milliseconds, at which the clock was read for it.
    pub fn admin_customer_orders_v1(first_millis: u64, second_millis: u64) -> (orders: Vec<
        CustomerOrder,
    >)
        ensures
            orders@.map_values(|order: CustomerOrder| order@) == seq![
                sample_order(1, first_millis as nat, Some(sample_customer(1))),
                sample_order(2, second_millis as nat, Some(sample_customer(2))),
            ],
    {
        let order1 = CustomerOrder {
            order_id: String::from_str("1"),
            created_at: Timestamp::from(first_millis),
            customer: customer(1),
            items: order_items(),
            status: OrderStatus::Delivered,
            total: UsdAmount(String::from_str("127.00")),
            shipping_option: delivery(),
        };
        let order2 = CustomerOrder {
            order_id: String::from_str("2"),
            created_at: Timestamp::from(second_millis),
            customer: customer(2),
            items: single_order_item(),
            status: OrderStatus::Pending,
            total: UsdAmount(String::from_str("42.00")),
            shipping_option: ShippingOption::Pickup(pickup_point(1)),
        };
        let mut orders: Vec<CustomerOrder> = Vec::new();
        orders.push(order1);
        orders.push(order2);
        assert(orders@.map_values(|order: CustomerOrder| order@) =~= seq![
            sample_order(1, first_millis as nat, Some(sample_customer(1))),
            sample_order(2, second_millis as nat, Some(sample_customer(2))),
        ]);
        orders
    }
}

/// The mutations of the storefront. None changes anything yet: each accepts
/// its input and answers with the unit.
pub struct MutationRoot;

impl MutationRoot {
    /// Takes a new quantity for a product in the cart. Nothing is kept: the answer is the unit.
    pub fn set_cart_product_quantity_v1(_product_id: ProductInput, _quantity: i32) -> (unit: Unit)
        ensures
            unit@ == Seq::<char>::empty(),
    {
        Unit::from(())
    }

    /// Takes a product for the catalogue. Nothing is kept: the answer is the unit.
    pub fn admin_product_create_v1(_product_input: ProductInput) -> (unit: Unit)
        ensures
            unit@ == Seq::<char>::empty(),
    {
        Unit::from(())
    }

    /// Takes a new description of a product. Nothing is kept: the answer is the unit.
    pub fn admin_product_update_v1(_product_id: String, _product_input: ProductInput) -> (unit: Unit)
        ensures
            unit@ == Seq::<char>::empty(),
    {
        Unit::from(())
    }

    /// Takes the identifier of a product to remove. Nothing is kept: the answer is the unit.
    pub fn admin_product_delete_v1(_product_id: String) -> (unit: Unit)
        ensures
            unit@ == Seq::<char>::empty(),
    {
        Unit::from(())
    }
}

} // verus!
