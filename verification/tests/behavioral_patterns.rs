use design_patterns::behavioral::chain_of_responsibility::AdvancedSupport;
use design_patterns::behavioral::chain_of_responsibility::BasicSupport;
use design_patterns::behavioral::chain_of_responsibility::Handler;
use design_patterns::behavioral::chain_of_responsibility::MediumSupport;
use design_patterns::behavioral::chain_of_responsibility::Support;
use design_patterns::behavioral::command::Light;
use design_patterns::behavioral::command::LightCommand;
use design_patterns::behavioral::command::LightOffCommand;
use design_patterns::behavioral::command::LightOnCommand;
use design_patterns::behavioral::command::RemoteControl;
use design_patterns::behavioral::interpreter::Add;
use design_patterns::behavioral::interpreter::Expr;
use design_patterns::behavioral::interpreter::Expression;
use design_patterns::behavioral::interpreter::Multiply;
use design_patterns::behavioral::interpreter::Number;
use design_patterns::behavioral::iterator::Names;
use design_patterns::behavioral::mediator::ChatRoomRef;
use design_patterns::behavioral::mediator::User;
use design_patterns::behavioral::memento::History;
use design_patterns::behavioral::memento::TextEditor;
use design_patterns::behavioral::observer::NewsAgency;
use design_patterns::behavioral::observer::Subject;
use design_patterns::behavioral::observer::Subscriber;
use design_patterns::behavioral::strategy::BubbleSort;
use design_patterns::behavioral::strategy::QuickSort;
use design_patterns::behavioral::strategy::Sorter;
use design_patterns::behavioral::strategy::Strategy;
use design_patterns::behavioral::template_method::Beverage;
use design_patterns::behavioral::template_method::Coffee;
use design_patterns::behavioral::template_method::Tea;
use design_patterns::behavioral::typestate::FileClosed;

#[test]
fn test_chain_of_responsibility() {
    let mut basic = BasicSupport::new();
    let mut medium = MediumSupport::new();
    let advanced = AdvancedSupport::new();

    // Build the chain from the far end towards the front
    medium.set_next(Support::Advanced(advanced));
    basic.set_next(Support::Medium(medium));

    basic.handle("базовый запрос");
    basic.handle("средний запрос");
    basic.handle("продвинутый запрос");
    basic.handle("неизвестный запрос");
}

#[test]
fn test_chain_handling_outcomes() {
    let mut basic = BasicSupport::new();
    let mut medium = MediumSupport::new();
    let advanced = AdvancedSupport::new();
    medium.set_next(Support::Advanced(advanced));
    basic.set_next(Support::Medium(medium));

    assert!(basic.handle("базовый запрос"));
    assert!(basic.handle("средний запрос"));
    assert!(basic.handle("продвинутый запрос"));
    assert!(!basic.handle("неизвестный запрос"));
}

#[test]
fn test_command() {
    let light = Light::new();
    let light_on = LightCommand::On(LightOnCommand::new(light));
    let mut remote = RemoteControl::new();

    remote.set_command(light_on);
    remote.press_button();

    let light2 = Light::new();
    let light_off = LightCommand::Off(LightOffCommand::new(light2));
    remote.set_command(light_off);
    remote.press_button();
}

#[test]
fn test_command_drives_light() {
    let mut remote = RemoteControl::new();
    assert!(!remote.press_button());

    remote.set_command(LightCommand::On(LightOnCommand::new(Light::new())));
    assert!(remote.press_button());
    match &remote.command {
        Some(LightCommand::On(cmd)) => assert!(cmd.light.is_on),
        _ => panic!("expected the on-command to stay set"),
    }
}

#[test]
fn test_interpreter() {
    // Building the expression: (1 + 2) * 3
    let expr = Multiply::new(
        Expr::Add(Add::new(
            Expr::Number(Number::new(1)),
            Expr::Number(Number::new(2)),
        )),
        Expr::Number(Number::new(3)),
    );

    let result = expr.interpret();
    println!("Результат: {}", result);
    assert_eq!(result, 9);
}

#[test]
fn test_iterator() {
    let names = Names::new(vec![
        "Алексей".to_string(),
        "Мария".to_string(),
        "Иван".to_string(),
    ]);

    let mut iterator = names.create_iterator();

    while iterator.has_next() {
        let _ = iterator.next();
    }
}

#[test]
fn test_iterator_yields_in_order() {
    let names = Names::new(vec!["Алексей".to_string(), "Мария".to_string()]);
    let mut iterator = names.create_iterator();
    assert_eq!(iterator.next(), Some("Алексей".to_string()));
    assert_eq!(iterator.next(), Some("Мария".to_string()));
    assert_eq!(iterator.next(), None);
}

#[test]
fn test_mediator() {
    let mut chat_room = ChatRoomRef::new();

    chat_room.add_user(User::new("Алексей"));
    chat_room.add_user(User::new("Мария"));
    chat_room.add_user(User::new("Иван"));

    let user1 = User::new("Алексей");
    let user2 = User::new("Мария");

    user1.send(&chat_room, "Привет всем!");
    user2.send(&chat_room, "Привет, Алексей!");
}

#[test]
fn test_mediator_skips_sender() {
    let mut chat_room = ChatRoomRef::new();
    chat_room.add_user(User::new("Алексей"));
    chat_room.add_user(User::new("Мария"));

    let sender = User::new("Алексей");
    let lines = sender.send(&chat_room, "Привет всем!");
    assert_eq!(lines, vec!["Мария получает от Алексей: Привет всем!".to_string()]);
}

#[test]
fn test_memento() {
    let mut editor = TextEditor::new();
    let mut history = History::new();

    editor.write("Привет, ");
    history.push(editor.save());

    editor.write("мир!");
    history.push(editor.save());

    editor.write(" Как дела?");
    println!("Текущее содержание: {}", editor.get_content());

    if let Some(state) = history.pop() {
        editor.restore(state);
    }

    println!("После отмены: {}", editor.get_content());
}

#[test]
fn test_memento_restores_saved_content() {
    let mut editor = TextEditor::new();
    let mut history = History::new();
    editor.write("Привет, ");
    history.push(editor.save());
    editor.write("мир!");
    assert_eq!(editor.get_content(), "Привет, мир!");
    let state = history.pop().expect("one snapshot saved");
    editor.restore(state);
    assert_eq!(editor.get_content(), "Привет, ");
}

#[test]
fn test_observer() {
    let mut agency = NewsAgency::new();

    agency.attach(Subscriber::new("Алексей"));
    agency.attach(Subscriber::new("Мария"));

    agency.set_news("Важная новость!");
}

#[test]
fn test_observer_notifies_everyone() {
    let mut agency = NewsAgency::new();
    agency.attach(Subscriber::new("Алексей"));
    agency.attach(Subscriber::new("Мария"));

    let lines = agency.set_news("Важная новость!");
    assert_eq!(
        lines,
        vec![
            "Алексей получил новость: Важная новость!".to_string(),
            "Мария получил новость: Важная новость!".to_string(),
        ]
    );
    assert_eq!(agency.get_news(), "Важная новость!");
}

#[test]
fn test_strategy() {
    let mut data = vec![3, 1, 4, 1, 5, 9, 2, 6];

    let mut sorter = Sorter::new(Strategy::Bubble(BubbleSort));
    sorter.sort(&mut data);
    println!("После пузырьковой: {:?}", data);

    data = vec![3, 1, 4, 1, 5, 9, 2, 6];
    sorter.set_strategy(Strategy::Quick(QuickSort));
    sorter.sort(&mut data);
    println!("После быстрой: {:?}", data);
}

#[test]
fn test_both_strategies_sort() {
    let mut bubbled = vec![3, 1, 4, 1, 5, 9, 2, 6];
    Sorter::new(Strategy::Bubble(BubbleSort)).sort(&mut bubbled);
    assert_eq!(bubbled, vec![1, 1, 2, 3, 4, 5, 6, 9]);

    let mut quicked = vec![3, 1, 4, 1, 5, 9, 2, 6];
    Sorter::new(Strategy::Quick(QuickSort)).sort(&mut quicked);
    assert_eq!(quicked, vec![1, 1, 2, 3, 4, 5, 6, 9]);

    let mut empty: Vec<i32> = vec![];
    Sorter::new(Strategy::Quick(QuickSort)).sort(&mut empty);
    assert_eq!(empty, Vec::<i32>::new());
}

#[test]
fn test_template_method() {
    let coffee = Coffee;
    let tea = Tea;

    println!("Приготовление кофе:");
    for step in coffee.prepare() {
        println!("{}", step);
    }

    println!("\nПриготовление чая:");
    for step in tea.prepare() {
        println!("{}", step);
    }
}

#[test]
fn test_template_method_steps() {
    let steps = Coffee.prepare();
    assert_eq!(
        steps,
        vec![
            "Кипячение воды".to_string(),
            "Заваривание кофе".to_string(),
            "Налив в чашку".to_string(),
            "Добавление сахара и молока".to_string(),
        ]
    );
    let tea_steps = Tea.prepare();
    assert_eq!(tea_steps[1], "Заваривание чая");
    assert_eq!(tea_steps[3], "Добавление лимона");
}

#[test]
fn test_typestate_pattern() {
    let closed_file = FileClosed::new("example.txt");

    let mut open_file = closed_file.open();

    open_file.write("Hello, ");
    open_file.write("World!");
    assert_eq!(open_file.read(), "Hello, World!");

    let closed_file_again = open_file.close();

    let mut open_file2 = closed_file_again.open();
    open_file2.write("New content");
    assert_eq!(open_file2.read(), "New content");
    open_file2.close();
}
