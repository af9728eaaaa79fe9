use std::rc::Rc;

use design_patterns::structural::adapter::Duck;
use design_patterns::structural::adapter::MallardDuck;
use design_patterns::structural::adapter::Turkey;
use design_patterns::structural::adapter::TurkeyAdapter;
use design_patterns::structural::adapter::WildTurkey;
use design_patterns::structural::bridge::BlueColor;
use design_patterns::structural::bridge::Circle;
use design_patterns::structural::bridge::RedColor;
use design_patterns::structural::bridge::Shape;
use design_patterns::structural::bridge::Square;
use design_patterns::structural::composite::Component;
use design_patterns::structural::composite::File;
use design_patterns::structural::composite::Folder;
use design_patterns::structural::composite::FsEntry;
use design_patterns::structural::facade::HomeTheaterFacade;
use design_patterns::structural::flyweight::FlyweightFactory;
use design_patterns::structural::proxy::ProxyImage;

#[test]
fn test_adapter() {
    let duck = MallardDuck;
    let turkey = WildTurkey;
    let turkey_adapter = TurkeyAdapter::new(WildTurkey);

    println!("Утка:");
    println!("{}", duck.quack());
    for line in duck.fly() {
        println!("{}", line);
    }

    println!("\nИндюк:");
    println!("{}", turkey.gobble());
    println!("{}", turkey.fly());

    println!("\nАдаптер индюка:");
    println!("{}", turkey_adapter.quack());
    for line in turkey_adapter.fly() {
        println!("{}", line);
    }
}

#[test]
fn test_adapter_translates_calls() {
    let adapter = TurkeyAdapter::new(WildTurkey);
    assert_eq!(adapter.quack(), "Курлы-курлы!");
    let hops = adapter.fly();
    assert_eq!(hops.len(), 5);
    for hop in hops {
        assert_eq!(hop, "Индюк летит на короткое расстояние!");
    }
}

#[test]
fn test_bridge() {
    let red_circle = Circle::new(RedColor);
    let blue_square = Square::new(BlueColor);
    let blue_circle = Circle::new(BlueColor);

    println!("{}", red_circle.draw());
    println!("{}", blue_square.draw());
    println!("{}", blue_circle.draw());
}

#[test]
fn test_bridge_combines_shape_and_color() {
    assert_eq!(Circle::new(RedColor).draw(), "Рисуем круг красный цветом");
    assert_eq!(Square::new(BlueColor).draw(), "Рисуем квадрат синий цветом");
    assert_eq!(Circle::new(BlueColor).draw(), "Рисуем круг синий цветом");
}

#[test]
fn test_composite() {
    let mut root = Folder::new("Корневая папка");
    let file1 = FsEntry::File(File::new("file1.txt"));
    let file2 = FsEntry::File(File::new("file2.txt"));

    let mut subfolder = Folder::new("Подпапка");
    let file3 = FsEntry::File(File::new("file3.txt"));
    subfolder.add(file3);

    root.add(file1);
    root.add(file2);
    root.add(FsEntry::Folder(subfolder));

    for line in root.operation() {
        println!("{}", line);
    }
}

#[test]
fn test_composite_walks_the_tree() {
    let mut root = Folder::new("Корневая папка");
    root.add(FsEntry::File(File::new("file1.txt")));
    let mut subfolder = Folder::new("Подпапка");
    subfolder.add(FsEntry::File(File::new("file3.txt")));
    root.add(FsEntry::Folder(subfolder));

    assert_eq!(
        root.operation(),
        vec![
            "Папка: Корневая папка".to_string(),
            "Файл: file1.txt".to_string(),
            "Папка: Подпапка".to_string(),
            "Файл: file3.txt".to_string(),
        ]
    );
}

#[test]
fn test_facade() {
    let home_theater = HomeTheaterFacade::new();
    for line in home_theater.watch_movie("Интерстеллар") {
        println!("{}", line);
    }
    for line in home_theater.end_movie() {
        println!("{}", line);
    }
}

#[test]
fn test_facade_runs_steps_in_order() {
    let home_theater = HomeTheaterFacade::new();
    let lines = home_theater.watch_movie("Интерстеллар");
    assert_eq!(lines.len(), 10);
    assert_eq!(lines[0], "Подготовка к просмотру фильма...");
    assert_eq!(lines[1], "Подсветка приглушена до 10");
    assert_eq!(lines[6], "Громкость усилителя установлена на 5");
    assert_eq!(lines[8], "Воспроизведение фильма: Интерстеллар");
    assert_eq!(lines[9], "Наслаждайтесь фильмом!");

    let end = home_theater.end_movie();
    assert_eq!(end.len(), 8);
    assert_eq!(end[0], "Завершение просмотра фильма...");
    assert_eq!(end[7], "Фильм окончен.");
}

#[test]
fn test_flyweight() {
    let mut factory = FlyweightFactory::new();

    let char_a1 = factory.get_character('A', "Arial");
    let char_a2 = factory.get_character('A', "Arial"); // reused
    let char_b = factory.get_character('B', "Arial");

    println!("{}", char_a1.display((10, 20)));
    println!("{}", char_a2.display((15, 25)));
    println!("{}", char_b.display((20, 30)));

    // The two handles share one object
    assert!(Rc::ptr_eq(&char_a1, &char_a2));
}

#[test]
fn test_flyweight_display_line() {
    let mut factory = FlyweightFactory::new();
    let ch = factory.get_character('A', "Arial");
    assert_eq!(ch.symbol, 'A');
    assert_eq!(ch.font, "Arial");
    assert_eq!(
        ch.display((10, -20)),
        "Символ 'A' шрифтом 'Arial' на позиции (10, -20)"
    );
}

#[test]
fn test_proxy() {
    let mut image = ProxyImage::new("photo.jpg");

    // First display: load, then show
    image.display();
    // Second display: show only, no load
    image.display();
}

#[test]
fn test_proxy_loads_once() {
    let mut image = ProxyImage::new("photo.jpg");
    let first = image.display();
    assert_eq!(
        first,
        vec![
            "Загрузка изображения 'photo.jpg' из диска".to_string(),
            "Отображение изображения 'photo.jpg'".to_string(),
        ]
    );
    let second = image.display();
    assert_eq!(second, vec!["Отображение изображения 'photo.jpg'".to_string()]);
}
