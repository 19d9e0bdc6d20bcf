use phone_agent::actions::coordinates::{CoordinateSystem, Scale};
use phone_agent::actions::handler::{ActionHandler, ActionResult, DeviceCommand};
use phone_agent::actions::parser::{
    parse_action, parse_do_action, parse_finish_action, Action, ActionError,
};
use phone_agent::actions::value::{Param, ParamValue, Scalar};

fn param<'a>(action: &'a Action, key: &str) -> Option<&'a ParamValue> {
    match action {
        Action::Do { params, .. } => params.iter().find(|p| p.key == key).map(|p| &p.value),
        Action::Finish { .. } => None,
    }
}

fn unit_handler() -> ActionHandler {
    ActionHandler::with_scale(None, Scale::identity(), Scale::identity())
}

#[test]
fn test_parse_do_action() {
    let response = r#"do(action="Tap", element=[100, 200])"#;
    let result = parse_action(response).unwrap();
    assert!(matches!(result, Action::Do { .. }));
    match &result {
        Action::Do { name, .. } => assert_eq!(name, "Tap"),
        Action::Finish { .. } => panic!("a do action was written"),
    }
    assert_eq!(
        param(&result, "action"),
        Some(&ParamValue::One(Scalar::Text("Tap".to_string())))
    );
    assert_eq!(
        param(&result, "element"),
        Some(&ParamValue::List(vec![Scalar::Int(100), Scalar::Int(200)]))
    );
}

#[test]
fn test_parse_finish_action() {
    let response = r#"finish(message="Task completed")"#;
    let result = parse_action(response).unwrap();
    assert_eq!(
        result,
        Action::Finish {
            message: Some("Task completed".to_string())
        }
    );
}

#[test]
fn test_action_result() {
    let success = ActionResult::success();
    assert!(success.success);
    assert!(!success.should_finish);

    let finish = ActionResult::finish(Some("Done".to_string()));
    assert!(finish.success);
    assert!(finish.should_finish);
}

#[test]
fn test_coordinate_bounds_check_valid() {
    let handler = unit_handler();

    let result = handler.validate_absolute_coordinates(&[500, 500], 1080, 1920);
    assert!(result.is_ok());
    let (x, y) = result.unwrap();
    assert_eq!(x, 500);
    assert_eq!(y, 500);

    let result = handler.validate_absolute_coordinates(&[0, 0], 1080, 1920);
    assert!(result.is_ok());

    let result = handler.validate_absolute_coordinates(&[1079, 1919], 1080, 1920);
    assert!(result.is_ok());
}

#[test]
fn test_coordinate_scaling() {
    let handler = ActionHandler::new(None);

    let result = handler.validate_absolute_coordinates(&[300, 400], 1080, 1920);
    assert!(result.is_ok());
    let (x, y) = result.unwrap();
    assert_eq!(x, 483);
    assert_eq!(y, 644);
}

#[test]
fn test_custom_scale_factor() {
    let handler = ActionHandler::with_scale(
        None,
        Scale::new(2, 1).unwrap(),
        Scale::new(3, 2).unwrap(),
    );

    let result = handler.validate_absolute_coordinates(&[100, 200], 1080, 1920);
    assert!(result.is_ok());
    let (x, y) = result.unwrap();
    assert_eq!(x, 200);
    assert_eq!(y, 300);
}

#[test]
fn test_coordinate_bounds_check_invalid_x() {
    let handler = unit_handler();

    let result = handler.validate_absolute_coordinates(&[-10, 500], 1080, 1920);
    assert!(result.is_err());
    assert!(result.unwrap_err().contains("X coordinate"));

    let result = handler.validate_absolute_coordinates(&[1080, 500], 1080, 1920);
    assert!(result.is_err());
    assert!(result.unwrap_err().contains("X coordinate"));
}

#[test]
fn test_coordinate_bounds_check_invalid_y() {
    let handler = unit_handler();

    let result = handler.validate_absolute_coordinates(&[500, -10], 1080, 1920);
    assert!(result.is_err());
    assert!(result.unwrap_err().contains("Y coordinate"));

    let result = handler.validate_absolute_coordinates(&[500, 1920], 1080, 1920);
    assert!(result.is_err());
    assert!(result.unwrap_err().contains("Y coordinate"));
}

#[test]
fn test_tap_action_with_invalid_coordinates() {
    let handler = unit_handler();

    let action = Action::Do {
        name: "Tap".to_string(),
        params: vec![
            Param {
                key: "action".to_string(),
                value: ParamValue::One(Scalar::Text("Tap".to_string())),
            },
            Param {
                key: "element".to_string(),
                value: ParamValue::List(vec![Scalar::Int(1500), Scalar::Int(500)]),
            },
        ],
    };

    let result = handler.execute(&action, 1080, 1920, true).result;
    assert!(!result.success);
    assert!(result.message.is_some());
    assert!(result.message.unwrap().contains("out of bounds"));
}

#[test]
fn test_swipe_action_with_invalid_coordinates() {
    let handler = unit_handler();

    let action = Action::Do {
        name: "Swipe".to_string(),
        params: vec![
            Param {
                key: "action".to_string(),
                value: ParamValue::One(Scalar::Text("Swipe".to_string())),
            },
            Param {
                key: "start".to_string(),
                value: ParamValue::List(vec![Scalar::Int(-100), Scalar::Int(500)]),
            },
            Param {
                key: "end".to_string(),
                value: ParamValue::List(vec![Scalar::Int(500), Scalar::Int(500)]),
            },
        ],
    };

    let result = handler.execute(&action, 1080, 1920, true).result;
    assert!(!result.success);
    assert!(result.message.is_some());
    assert!(result.message.unwrap().contains("out of bounds"));
}

#[test]
fn absolute_error_text_is_exact() {
    let handler = ActionHandler::new(None);
    let result = handler.validate_absolute_coordinates(&[1500, 500], 1080, 1920);
    assert_eq!(
        result.unwrap_err(),
        "Scaled X coordinate 2415 (raw: 1500 × 1.61) is out of bounds. Valid range is [0, 1080). \
         Please provide coordinates within the screen area."
    );
}

#[test]
fn relative_policy_maps_in_proportion() {
    let handler = ActionHandler::with_options(
        None,
        Scale::identity(),
        Scale::identity(),
        CoordinateSystem::Relative,
    );
    assert_eq!(
        handler.validate_relative_coordinates(&[500, 250], 1080, 1920),
        Ok((540, 480))
    );
    assert_eq!(
        handler.validate_relative_coordinates(&[0, 999], 1080, 1920),
        Ok((0, 1918))
    );
    assert_eq!(
        handler.validate_relative_coordinates(&[1000, 1000], 1080, 1920),
        Ok((1080, 1920))
    );
    assert_eq!(
        handler.validate_relative_coordinates(&[1001, 5], 1080, 1920),
        Err("Relative X coordinate 1001 is out of range. Valid range is [0, 1000].".to_string())
    );
    assert_eq!(
        handler.validate_relative_coordinates(&[5, -1], 1080, 1920),
        Err("Relative Y coordinate -1 is out of range. Valid range is [0, 1000].".to_string())
    );
}

#[test]
fn tap_gives_pixels_and_sensitive_tap_needs_consent() {
    let handler = ActionHandler::new(None);
    let action = parse_action("do(action=\"Tap\", element=[300, 400])").unwrap();
    assert_eq!(handler.pending_confirmation(&action), None);
    let done = handler.execute(&action, 1080, 1920, false);
    assert_eq!(done.command, Some(DeviceCommand::Tap { x: 483, y: 644 }));
    assert_eq!(done.result, ActionResult::success());

    let sensitive =
        parse_action("do(action=\"Tap\", element=[300, 400], message=\"Pay now\")").unwrap();
    assert_eq!(
        handler.pending_confirmation(&sensitive),
        Some(&"Pay now".to_string())
    );
    let declined = handler.execute(&sensitive, 1080, 1920, false);
    assert_eq!(declined.command, None);
    assert!(!declined.result.success);
    assert!(declined.result.should_finish);
    assert!(declined.result.requires_confirmation);
    let agreed = handler.execute(&sensitive, 1080, 1920, true);
    assert_eq!(agreed.command, Some(DeviceCommand::Tap { x: 483, y: 644 }));
}

#[test]
fn parse_errors_say_what_went_wrong() {
    assert_eq!(
        parse_action("  hello  "),
        Err(ActionError::ParseError(
            "Failed to parse action: hello".to_string()
        ))
    );
    assert_eq!(
        parse_action("do(action=\"Tap\""),
        Err(ActionError::ParseError("Invalid do() format".to_string()))
    );
    assert_eq!(
        parse_action("finish(message=\"x\""),
        Err(ActionError::ParseError(
            "Invalid finish() format".to_string()
        ))
    );
    assert_eq!(
        ActionError::ParseError("x".to_string()).message(),
        "Parse error: x"
    );
}

#[test]
fn values_are_read_as_integer_then_float_then_text() {
    let action = parse_action("do(action='Wait', a=12, b=-3.5, c=1e3, d=abc, e=[1, 2.5, x], f=\"7\")")
        .unwrap();
    assert_eq!(param(&action, "a"), Some(&ParamValue::One(Scalar::Int(12))));
    assert_eq!(
        param(&action, "b"),
        Some(&ParamValue::One(Scalar::Float("-3.5".to_string())))
    );
    assert_eq!(
        param(&action, "c"),
        Some(&ParamValue::One(Scalar::Float("1e3".to_string())))
    );
    assert_eq!(
        param(&action, "d"),
        Some(&ParamValue::One(Scalar::Text("abc".to_string())))
    );
    assert_eq!(
        param(&action, "e"),
        Some(&ParamValue::List(vec![
            Scalar::Int(1),
            Scalar::Float("2.5".to_string()),
            Scalar::Text("x".to_string())
        ]))
    );
    assert_eq!(param(&action, "f"), Some(&ParamValue::One(Scalar::Int(7))));
}

#[test]
fn test_do_action_helper() {
    let action = phone_agent::actions::parser::do_action(
        "Tap",
        vec![Param {
            key: "element".to_string(),
            value: ParamValue::List(vec![Scalar::Int(100), Scalar::Int(200)]),
        }],
    );
    assert!(matches!(action, Action::Do { .. }));
    assert_eq!(
        param(&action, "action"),
        Some(&ParamValue::One(Scalar::Text("Tap".to_string())))
    );
    match &action {
        Action::Do { name, params } => {
            assert_eq!(name, "Tap");
            assert_eq!(params.len(), 2);
            assert_eq!(params[0].key, "action");
            assert_eq!(params[1].key, "element");
        }
        Action::Finish { .. } => panic!("a do action was made"),
    }
}

#[test]
fn test_finish_action_helper() {
    let action = phone_agent::actions::parser::finish_action(Some("Done"));
    assert_eq!(
        action,
        Action::Finish {
            message: Some("Done".to_string())
        }
    );
}

#[test]
fn whitespace_and_quote_style_do_not_matter() {
    let plain = parse_action("do(action=\"Tap\", element=[10,20])").unwrap();
    let spaced = parse_action("  do( action = 'Tap' ,\n element = [ 10 , 20 ] )  ").unwrap();
    assert_eq!(plain, spaced);
    match &plain {
        Action::Do { name, params } => {
            assert_eq!(name, "Tap");
            assert_eq!(params.len(), 2);
        }
        Action::Finish { .. } => panic!("a do action was written"),
    }
}

#[test]
fn later_pairs_replace_earlier_ones_in_place() {
    let action = parse_action("do(a=1, b=2, a=3)").unwrap();
    match &action {
        Action::Do { name, params } => {
            assert_eq!(name, "");
            assert_eq!(params.len(), 2);
            assert_eq!(params[0].key, "a");
            assert_eq!(params[0].value, ParamValue::One(Scalar::Int(3)));
            assert_eq!(params[1].key, "b");
        }
        Action::Finish { .. } => panic!("a do action was written"),
    }
}

#[test]
fn finish_message_forms() {
    assert_eq!(
        parse_action("finish()").unwrap(),
        Action::Finish { message: None }
    );
    assert_eq!(
        parse_action("finish(message='a, b')").unwrap(),
        Action::Finish {
            message: Some("a, b".to_string())
        }
    );
    assert_eq!(
        parse_action("finish(message= all done , x=1)").unwrap(),
        Action::Finish {
            message: Some("all done".to_string())
        }
    );
    assert_eq!(
        parse_action("finish(message=\"open").unwrap_err(),
        ActionError::ParseError("Invalid finish() format".to_string())
    );
    assert_eq!(
        parse_action("finish(message=\"open)").unwrap(),
        Action::Finish {
            message: Some("open".to_string())
        }
    );
}

#[test]
fn lists_and_brackets() {
    let action = parse_action("do(a=[], b=[, c=[[1,2],[3]])").unwrap();
    assert_eq!(
        param(&action, "a"),
        Some(&ParamValue::List(vec![Scalar::Text(String::new())]))
    );
    // an open bracket takes the rest of the text
    assert_eq!(
        param(&action, "b"),
        Some(&ParamValue::List(vec![
            Scalar::Text(String::new()),
            Scalar::Text("c=[[1".to_string()),
            Scalar::Text("2]".to_string()),
            Scalar::Text("[3]".to_string()),
        ]))
    );
    let lone = parse_action("do(a=[)").unwrap();
    assert_eq!(
        param(&lone, "a"),
        Some(&ParamValue::One(Scalar::Text("[".to_string())))
    );
}

#[test]
fn integers_at_the_limits() {
    let action = parse_action(
        "do(a=9223372036854775807, b=-9223372036854775808, c=9223372036854775808, d=+5, e=-, f=007)",
    )
    .unwrap();
    assert_eq!(
        param(&action, "a"),
        Some(&ParamValue::One(Scalar::Int(i64::MAX)))
    );
    assert_eq!(
        param(&action, "b"),
        Some(&ParamValue::One(Scalar::Int(i64::MIN)))
    );
    assert_eq!(
        param(&action, "c"),
        Some(&ParamValue::One(Scalar::Float(
            "9223372036854775808".to_string()
        )))
    );
    assert_eq!(param(&action, "d"), Some(&ParamValue::One(Scalar::Int(5))));
    assert_eq!(
        param(&action, "e"),
        Some(&ParamValue::One(Scalar::Text("-".to_string())))
    );
    assert_eq!(param(&action, "f"), Some(&ParamValue::One(Scalar::Int(7))));
}

#[test]
fn float_literals_follow_the_grammar_of_parse() {
    for text in [
        "1.5", "-1.5", "+.5", "5.", "1e5", "1E-5", "1.5e+10", "inf", "-Infinity", "NaN", "nan",
        "0.0", ".0",
    ] {
        assert!(text.parse::<f64>().is_ok(), "{}", text);
        assert_eq!(
            phone_agent::actions::parser::parse_value(text),
            ParamValue::One(Scalar::Float(text.to_string())),
            "{}",
            text
        );
    }
    for text in [".", "e5", "1e", "1e+", "1.5.2", "+", "infinit", "1_000", "0x10", "1 2"] {
        assert!(text.parse::<f64>().is_err(), "{}", text);
        assert!(text.parse::<i64>().is_err(), "{}", text);
        assert_eq!(
            phone_agent::actions::parser::parse_value(text),
            ParamValue::One(Scalar::Text(text.to_string())),
            "{}",
            text
        );
    }
}

#[test]
fn every_kind_of_action_is_dispatched() {
    let handler = ActionHandler::with_scale(None, Scale::identity(), Scale::identity());
    let run = |text: &str| handler.execute(&parse_action(text).unwrap(), 1080, 1920, true);

    let done = run("finish(message=\"ok\")");
    assert_eq!(done.result, ActionResult::finish(Some("ok".to_string())));
    assert_eq!(done.command, None);

    assert_eq!(
        run("do(action=\"Launch\", app=\"Chrome\")").command,
        Some(DeviceCommand::Launch {
            package: "com.android.chrome".to_string()
        })
    );
    assert_eq!(
        run("do(action=\"Launch\", app=\"Nowhere\")").result,
        ActionResult::failure("App not found: Nowhere")
    );
    assert_eq!(
        run("do(action=\"Launch\")").result,
        ActionResult::failure("No app name specified")
    );
    assert_eq!(
        run("do(action=\"Type\", text=\"hello\")").command,
        Some(DeviceCommand::Type {
            text: "hello".to_string()
        })
    );
    assert_eq!(
        run("do(action=\"Type_Name\")").command,
        Some(DeviceCommand::Type {
            text: String::new()
        })
    );
    assert_eq!(
        run("do(action=\"Swipe\", start=[1,2], end=[3,4])").command,
        Some(DeviceCommand::Swipe {
            start_x: 1,
            start_y: 2,
            end_x: 3,
            end_y: 4
        })
    );
    assert_eq!(
        run("do(action=\"Swipe\", start=[1,2])").result,
        ActionResult::failure("Missing end coordinates")
    );
    assert_eq!(
        run("do(action=\"Swipe\", start=[1], end=[3,4])").result,
        ActionResult::failure("Invalid start coordinates")
    );
    assert_eq!(run("do(action=\"Back\")").command, Some(DeviceCommand::Back));
    assert_eq!(run("do(action=\"Home\")").command, Some(DeviceCommand::Home));
    assert_eq!(
        run("do(action=\"Double Tap\", element=[5,6])").command,
        Some(DeviceCommand::DoubleTap { x: 5, y: 6 })
    );
    assert_eq!(
        run("do(action=\"Long Press\", element=[5,6])").command,
        Some(DeviceCommand::LongPress { x: 5, y: 6 })
    );
    assert_eq!(
        run("do(action=\"Long Press\")").result,
        ActionResult::failure("No element coordinates")
    );
    assert_eq!(
        run("do(action=\"Tap\", element=[x, 2])").result,
        ActionResult::failure("Invalid element coordinates")
    );
    assert_eq!(
        run("do(action=\"Wait\", duration=\"2 seconds\")").command,
        Some(DeviceCommand::Wait {
            duration: "2 seconds".to_string()
        })
    );
    assert_eq!(
        run("do(action=\"Wait\")").command,
        Some(DeviceCommand::Wait {
            duration: "1 seconds".to_string()
        })
    );
    assert_eq!(
        run("do(action=\"Take_over\")").command,
        Some(DeviceCommand::TakeOver {
            message: "User intervention required".to_string()
        })
    );
    assert_eq!(run("do(action=\"Note\")").result, ActionResult::success());
    assert_eq!(run("do(action=\"Call_API\")").command, None);
    let interact = run("do(action=\"Interact\")");
    assert!(interact.result.success);
    assert_eq!(
        interact.result.message,
        Some("User interaction required".to_string())
    );
    assert_eq!(
        run("do(action=\"Fly\")").result,
        ActionResult::failure("Unknown action: Fly")
    );
    assert_eq!(
        run("do(action=\"Tap\", element=[2000, 5])").result.message,
        Some(
            "Coordinate error for element: Scaled X coordinate 2000 (raw: 2000 × 1.00) is out \
             of bounds. Valid range is [0, 1080). Please provide coordinates within the screen \
             area."
                .to_string()
        )
    );
}

#[test]
fn scaling_rounds_half_away_from_zero() {
    let half = Scale::new(1, 2).unwrap();
    assert_eq!(half.scaled(1), 1);
    assert_eq!(half.scaled(3), 2);
    assert_eq!(half.scaled(-1), -1);
    assert_eq!(half.scaled(-3), -2);
    assert_eq!(half.scaled(4), 2);
    assert_eq!(Scale::new(1, 0), None);
    assert_eq!(Scale::standard().parts(), (161, 100));
    assert_eq!(Scale::from_percent(161), Scale::standard());
    let handler = ActionHandler::new(None);
    // 1500 * 1.61 = 2415, off a screen 1080 wide
    assert!(handler
        .validate_absolute_coordinates(&[1500, 500], 1080, 1920)
        .is_err());
    assert_eq!(handler.coordinate_system(), CoordinateSystem::Absolute);
}

#[test]
fn each_form_has_its_own_reader() {
    let tap = parse_do_action("do(action=\"Back\")").unwrap();
    assert_eq!(tap, parse_action("do(action=\"Back\")").unwrap());
    assert_eq!(
        parse_do_action("finish(message=\"x\")"),
        Err(ActionError::ParseError("Invalid do() format".to_string()))
    );
    assert_eq!(
        parse_finish_action("finish(message=\"x\")"),
        Ok(Action::Finish {
            message: Some("x".to_string())
        })
    );
    assert_eq!(
        parse_finish_action("do(action=\"Back\")"),
        Err(ActionError::ParseError("Invalid finish() format".to_string()))
    );
}

#[test]
fn scales_can_be_replaced() {
    let mut handler = ActionHandler::new(Some("emulator-5554".to_string()));
    assert_eq!(handler.get_scale(), (Scale::standard(), Scale::standard()));
    handler.set_scale(Scale::new(2, 1).unwrap(), Scale::identity());
    assert_eq!(
        handler.get_scale(),
        (Scale::new(2, 1).unwrap(), Scale::identity())
    );
    assert_eq!(handler.coordinate_system(), CoordinateSystem::Absolute);
    assert_eq!(
        handler.validate_absolute_coordinates(&[300, 400], 1080, 1920),
        Ok((600, 400))
    );
}

#[test]
fn quoted_text_is_kept_to_the_letter() {
    let action = parse_action(r#"do(action="Type", text=" hi, a=b ")"#).unwrap();
    match &action {
        Action::Do { name, params } => {
            assert_eq!(name, "Type");
            assert_eq!(params.len(), 2);
        }
        Action::Finish { .. } => panic!("a do action was written"),
    }
    assert_eq!(
        param(&action, "action"),
        Some(&ParamValue::One(Scalar::Text("Type".to_string())))
    );
    assert_eq!(
        param(&action, "text"),
        Some(&ParamValue::One(Scalar::Text(" hi, a=b ".to_string())))
    );
    assert_eq!(
        parse_do_action(r#"do(action="Type", text=" hi, a=b ")"#),
        Ok(action)
    );

    // blanks outside the quotes are not part of the value
    let padded = parse_action("do( action = 'Type' , text = '\t12 ' )").unwrap();
    assert_eq!(
        param(&padded, "text"),
        Some(&ParamValue::One(Scalar::Text("\t12 ".to_string())))
    );
    assert_eq!(
        param(&padded, "action"),
        Some(&ParamValue::One(Scalar::Text("Type".to_string())))
    );
    // a quoted name keeps its blanks too
    let named = parse_action(r#"do(action=" Tap ", element=[1, 2])"#).unwrap();
    match &named {
        Action::Do { name, .. } => assert_eq!(name, " Tap "),
        Action::Finish { .. } => panic!("a do action was written"),
    }
}
