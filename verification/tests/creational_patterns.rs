use design_patterns::creational::abstract_factory::Button;
use design_patterns::creational::abstract_factory::Checkbox;
use design_patterns::creational::abstract_factory::GUIFactory;
use design_patterns::creational::abstract_factory::MacFactory;
use design_patterns::creational::abstract_factory::WinFactory;
use design_patterns::creational::abstract_factory::application;
use design_patterns::creational::builder::CarBuilder;
use design_patterns::creational::builder::ConcreteCarBuilder;
use design_patterns::creational::builder::Director;
use design_patterns::creational::factory::AbstractFactory;
use design_patterns::creational::factory::AbstractProductA;
use design_patterns::creational::factory::AbstractProductB;
use design_patterns::creational::factory::ConcreteFactory1;
use design_patterns::creational::factory::ConcreteFactory2;
use design_patterns::creational::factory_method::ConcreteCreatorA;
use design_patterns::creational::factory_method::ConcreteCreatorB;
use design_patterns::creational::factory_method::Creator;
use design_patterns::creational::factory_method::Product;
use design_patterns::creational::lazy_initialization::LazyExample;
use design_patterns::creational::object_pool::ObjectPool;
use design_patterns::creational::object_pool::PooledString;

#[test]
fn abstract_factory_test_abstract_factory() {
    let win_factory = WinFactory;
    let button = win_factory.create_button();
    let checkbox = win_factory.create_checkbox();

    assert_eq!(button.paint(), "Отрисовка кнопки в стиле Windows");
    assert_eq!(checkbox.paint(), "Отрисовка чекбокса в стиле Windows");

    let mac_factory = MacFactory;
    let button = mac_factory.create_button();
    let checkbox = mac_factory.create_checkbox();

    assert_eq!(button.paint(), "Отрисовка кнопки в стиле macOS");
    assert_eq!(checkbox.paint(), "Отрисовка чекбокса в стиле macOS");
}

#[test]
fn test_application_paints_both_widgets() {
    let (button_line, checkbox_line) = application(&WinFactory);
    assert_eq!(button_line, "Отрисовка кнопки в стиле Windows");
    assert_eq!(checkbox_line, "Отрисовка чекбокса в стиле Windows");
}

#[test]
fn test_builder() {
    let builder = ConcreteCarBuilder::new();
    let mut director = Director::new(builder);

    let sports_car = director.construct_sports_car();
    assert_eq!(sports_car.seats, 2);
    assert_eq!(sports_car.engine, "SportEngine");
    assert!(sports_car.trip_computer);
    assert!(sports_car.gps);

    let suv = director.construct_suv();
    assert_eq!(suv.seats, 4);
    assert_eq!(suv.engine, "SUVEngine");
    assert!(!suv.trip_computer);
    assert!(suv.gps);
}

#[test]
fn test_builder_reset_clears_everything() {
    let mut builder = ConcreteCarBuilder::new();
    builder.set_seats(6);
    builder.set_engine("Turbo".to_string());
    builder.set_trip_computer();
    builder.set_gps();
    builder.reset();
    let car = builder.get_result();
    assert_eq!(car.seats, 0);
    assert_eq!(car.engine, "");
    assert!(!car.trip_computer);
    assert!(!car.gps);
}

#[test]
fn factory_test_abstract_factory() {
    let factory1 = ConcreteFactory1;
    let product_a1 = factory1.create_product_a();
    let product_b1 = factory1.create_product_b();

    assert_eq!(product_a1.operation_a(), "Результат операции A1");
    assert_eq!(product_b1.operation_b(), "Результат операции B1");
    assert_eq!(
        product_b1.collaborate(&product_a1),
        "Результат сотрудничества B1 с (Результат операции A1)"
    );

    let factory2 = ConcreteFactory2;
    let product_a2 = factory2.create_product_a();
    let product_b2 = factory2.create_product_b();

    assert_eq!(product_a2.operation_a(), "Результат операции A2");
    assert_eq!(product_b2.operation_b(), "Результат операции B2");
    assert_eq!(
        product_b2.collaborate(&product_a2),
        "Результат сотрудничества B2 с (Результат операции A2)"
    );
}

#[test]
fn test_factory_method() {
    let creator_a = ConcreteCreatorA;
    let product_a = creator_a.factory_method();
    assert_eq!(product_a.operation(), "Результат продукта A");

    let creator_b = ConcreteCreatorB;
    let product_b = creator_b.factory_method();
    assert_eq!(product_b.operation(), "Результат продукта B");
}

#[test]
fn test_lazy_initialization() {
    let mut example = LazyExample::new();

    // The first call initializes
    let data1 = example.get_expensive_data();
    assert_eq!(data1, "Дорогие данные");

    // The second call uses the cached value
    let data2 = example.get_expensive_data();
    assert_eq!(data2, "Дорогие данные");
}

#[test]
fn test_object_pool() {
    let mut pool = ObjectPool::new();

    // Create an object through the factory
    let obj1 = pool.acquire(|| PooledString { value: "new".to_string() });
    assert_eq!(obj1.value, "new");
    assert_eq!(pool.created_count(), 1);

    // Return it to the pool
    pool.release(obj1);
    assert_eq!(pool.available_count(), 1);

    // Take it back from the pool
    let obj2 = pool.acquire(|| PooledString { value: "unused".to_string() });
    assert_eq!(obj2.value, ""); // reset
    assert_eq!(pool.created_count(), 1); // no new object created
}
