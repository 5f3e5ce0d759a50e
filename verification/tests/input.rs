use complementary::input::{Button, ButtonType, Input, BUTTON_COUNT};

#[test]
fn new_input_has_every_button_released() {
    let input = Input::new();
    for i in 0..BUTTON_COUNT {
        let typ = ButtonType::from_usize(i).unwrap();
        assert!(!input.get_button(typ).pressed());
        assert!(!input.get_button(typ).pressed_first_frame());
        assert_eq!(input.get_button(typ).pressed_ticks(), None);
    }
    assert_eq!(input.horizontal(), 0);
    assert!(!input.ability_button_pressed());
    assert!(!input.ability_button_pressed_first_frame());
}

#[test]
fn new_button_is_released() {
    let button = Button::new();
    assert!(!button.pressed());
    assert!(!button.pressed_first_frame());
    assert_eq!(button.pressed_ticks(), None);
}

#[test]
fn press_is_first_frame_in_the_next_tick_only() {
    let mut input = Input::new();
    input.set_button_pressed(ButtonType::Jump);
    assert_eq!(input.get_button(ButtonType::Jump).pressed_ticks(), Some(0));
    assert!(input.get_button(ButtonType::Jump).pressed());
    assert!(!input.get_button(ButtonType::Jump).pressed_first_frame());
    input.tick();
    assert_eq!(input.get_button(ButtonType::Jump).pressed_ticks(), Some(1));
    assert!(input.get_button(ButtonType::Jump).pressed_first_frame());
    input.tick();
    assert_eq!(input.get_button(ButtonType::Jump).pressed_ticks(), Some(2));
    assert!(input.get_button(ButtonType::Jump).pressed());
    assert!(!input.get_button(ButtonType::Jump).pressed_first_frame());
}

#[test]
fn tick_leaves_released_buttons_released() {
    let mut input = Input::new();
    input.set_button_pressed(ButtonType::Left);
    input.tick();
    assert_eq!(input.get_button(ButtonType::Left).pressed_ticks(), Some(1));
    assert_eq!(input.get_button(ButtonType::Right).pressed_ticks(), None);
    assert_eq!(input.get_button(ButtonType::Jump).pressed_ticks(), None);
}

#[test]
fn pressing_a_held_button_keeps_its_count() {
    let mut input = Input::new();
    input.set_button_pressed(ButtonType::Ability);
    input.tick();
    input.tick();
    input.tick();
    input.set_button_pressed(ButtonType::Ability);
    assert_eq!(input.get_button(ButtonType::Ability).pressed_ticks(), Some(3));
}

#[test]
fn release_clears_the_count() {
    let mut input = Input::new();
    input.set_button_pressed(ButtonType::Down);
    input.tick();
    input.set_button_released(ButtonType::Down);
    assert_eq!(input.get_button(ButtonType::Down).pressed_ticks(), None);
    input.tick();
    assert_eq!(input.get_button(ButtonType::Down).pressed_ticks(), None);
    input.set_button_released(ButtonType::Up);
    assert_eq!(input.get_button(ButtonType::Up).pressed_ticks(), None);
}

#[test]
fn horizontal_is_the_difference_of_right_and_left() {
    let mut input = Input::new();
    input.set_button_pressed(ButtonType::Right);
    assert_eq!(input.horizontal(), 1);
    input.set_button_pressed(ButtonType::Left);
    assert_eq!(input.horizontal(), 0);
    input.set_button_released(ButtonType::Right);
    assert_eq!(input.horizontal(), -1);
}

#[test]
fn vertical_is_the_difference_of_down_and_up() {
    let mut input = Input::new();
    assert_eq!(input.vertical(), 0);
    input.set_button_pressed(ButtonType::Down);
    assert_eq!(input.vertical(), 1);
    input.set_button_pressed(ButtonType::Up);
    assert_eq!(input.vertical(), 0);
    input.set_button_released(ButtonType::Down);
    assert_eq!(input.vertical(), -1);
    assert_eq!(input.horizontal(), 0);
}

#[test]
fn either_ability_button_counts() {
    let mut input = Input::new();
    input.set_button_pressed(ButtonType::SwitchAndAbility);
    input.tick();
    assert!(input.ability_button_pressed());
    assert!(input.ability_button_pressed_first_frame());
    input.tick();
    assert!(input.ability_button_pressed());
    assert!(!input.ability_button_pressed_first_frame());
    input.set_button_pressed(ButtonType::Ability);
    input.tick();
    assert!(input.ability_button_pressed_first_frame());
    input.set_button_released(ButtonType::Ability);
    input.set_button_released(ButtonType::SwitchAndAbility);
    assert!(!input.ability_button_pressed());
}

#[test]
fn button_indices_follow_the_declaration_order() {
    let order = [
        ButtonType::Jump,
        ButtonType::Switch,
        ButtonType::Ability,
        ButtonType::SwitchAndAbility,
        ButtonType::Left,
        ButtonType::Right,
        ButtonType::Up,
        ButtonType::Down,
        ButtonType::Pause,
        ButtonType::Confirm,
    ];
    assert_eq!(BUTTON_COUNT, 10);
    for (i, typ) in order.iter().enumerate() {
        assert_eq!(typ.index(), i);
        assert_eq!(ButtonType::from_usize(i), Some(*typ));
    }
    assert_eq!(ButtonType::from_usize(10), None);
    assert_eq!(ButtonType::from_usize(usize::MAX), None);
}

#[test]
fn fresh_input_is_ready_to_tick() {
    let mut input = Input::new();
    assert!(input.ready_to_tick());
    input.set_button_pressed(ButtonType::Pause);
    input.tick();
    assert!(input.ready_to_tick());
}
