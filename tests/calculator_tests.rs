use calculator::{
    calculate, history_entry, history_line, is_negative_bits, is_zero_bits, parse_history,
    resolve_operands, CalcError, Calculator, Evaluation, Operator,
};

fn bits(x: f64) -> u64 {
    x.to_bits()
}

fn parsed(text: &str) -> Option<u64> {
    text.trim().parse::<f64>().ok().map(f64::to_bits)
}

fn apply(e: Evaluation) -> f64 {
    let a = f64::from_bits(e.lhs);
    let b = f64::from_bits(e.rhs);
    match e.op {
        Operator::Add => a + b,
        Operator::Subtract => a - b,
        Operator::Multiply => a * b,
        Operator::Divide => a / b,
        Operator::Power => a.powf(b),
        Operator::SquareRoot => a.sqrt(),
    }
}

fn press(calc: &mut Calculator, num1: &str, num2: &str, op: &str) {
    calc.num1 = num1.to_string();
    calc.num2 = num2.to_string();
    calc.select_operator(op);
    let first = parsed(&calc.num1);
    let second = parsed(&calc.num2);
    if let Some(e) = calc.evaluate_inputs(first, second) {
        calc.record_value(e, apply(e).to_string());
    }
}

#[test]
fn divide_six_by_three_shows_two_and_logs_it() {
    let mut calc = Calculator::new();
    press(&mut calc, "6", "3", "/");
    assert_eq!(calc.result, "2");
    assert_eq!(calc.history, vec!["6 / 3 = 2".to_string()]);
    assert_eq!(calc.last_history_line(), Some("6 / 3 = 2\n".to_string()));
}

#[test]
fn divide_by_zero_shows_error_and_logs_nothing() {
    let mut calc = Calculator::new();
    press(&mut calc, "6", "0", "/");
    assert_eq!(calc.result, "Error: Cannot divide by zero");
    assert!(calc.history.is_empty());
    assert_eq!(calc.last_history_line(), None);
}

#[test]
fn square_root_of_nine_ignores_blank_second_operand() {
    let mut calc = Calculator::new();
    press(&mut calc, "9", "", "\u{221a}");
    assert_eq!(calc.result, "3");
    assert_eq!(calc.history, vec!["9 \u{221a} = 3".to_string()]);
}

#[test]
fn square_root_ignores_filled_second_operand() {
    let mut calc = Calculator::new();
    press(&mut calc, "16", "5", "\u{221a}");
    assert_eq!(calc.result, "4");
    assert_eq!(calc.history, vec!["16 \u{221a} = 4".to_string()]);
}

#[test]
fn unparsable_operand_is_invalid_input() {
    let mut calc = Calculator::new();
    press(&mut calc, "abc", "3", "+");
    assert_eq!(calc.result, "Error: Invalid input");
    assert!(calc.history.is_empty());
}

#[test]
fn blank_second_operand_is_invalid_for_binary_operators() {
    let mut calc = Calculator::new();
    press(&mut calc, "4", "", "*");
    assert_eq!(calc.result, "Error: Invalid input");
    assert_eq!(resolve_operands("+", None, Some(bits(1.0))), Err(CalcError::InvalidInput));
    assert_eq!(resolve_operands("\u{221a}", None, None), Err(CalcError::InvalidInput));
}

#[test]
fn operands_are_trimmed_but_logged_as_typed() {
    let mut calc = Calculator::new();
    press(&mut calc, " 2 ", "3", "+");
    assert_eq!(calc.result, "5");
    assert_eq!(calc.history, vec![" 2  + 3 = 5".to_string()]);
}

#[test]
fn division_goes_through_for_nonzero_divisor() {
    let r = calculate("/", bits(7.0), bits(2.0));
    assert_eq!(r, Ok(Evaluation { op: Operator::Divide, lhs: bits(7.0), rhs: bits(2.0) }));
    assert_eq!(apply(r.unwrap()), 3.5);
    let tiny = calculate("/", bits(1.0), bits(f64::MIN_POSITIVE));
    assert!(tiny.is_ok());
}

#[test]
fn division_by_either_zero_fails() {
    assert_eq!(calculate("/", bits(6.0), bits(0.0)), Err(CalcError::DivideByZero));
    assert_eq!(calculate("/", bits(6.0), bits(-0.0)), Err(CalcError::DivideByZero));
    assert_eq!(calculate("/", bits(f64::NAN), bits(0.0)), Err(CalcError::DivideByZero));
    assert_eq!(calculate("/", bits(0.0), bits(0.0)), Err(CalcError::DivideByZero));
}

#[test]
fn square_root_rules() {
    assert_eq!(calculate("\u{221a}", bits(-1.0), 0), Err(CalcError::NegativeSqrt));
    assert_eq!(calculate("\u{221a}", bits(f64::NEG_INFINITY), 0), Err(CalcError::NegativeSqrt));
    assert!(calculate("\u{221a}", bits(-0.0), 0).is_ok());
    assert!(calculate("\u{221a}", bits(f64::NAN), 0).is_ok());
    let r = calculate("\u{221a}", bits(2.25), bits(-7.0)).unwrap();
    assert_eq!(apply(r), 1.5);
}

#[test]
fn other_operators_never_fail() {
    let values = [0.0, -0.0, 1.5, -3.0, f64::MAX, f64::INFINITY, f64::NAN];
    for op in ["+", "-", "*", "^"] {
        for a in values {
            for b in values {
                assert!(calculate(op, bits(a), bits(b)).is_ok());
            }
        }
    }
    assert_eq!(apply(calculate("^", bits(2.0), bits(10.0)).unwrap()), 1024.0);
    assert_eq!(apply(calculate("-", bits(2.0), bits(10.0)).unwrap()), -8.0);
}

#[test]
fn unknown_operator_fails() {
    assert_eq!(calculate("%", bits(1.0), bits(2.0)), Err(CalcError::UnknownOperator));
    assert_eq!(calculate("", bits(1.0), bits(2.0)), Err(CalcError::UnknownOperator));
    assert_eq!(calculate("++", bits(1.0), bits(2.0)), Err(CalcError::UnknownOperator));
    assert_eq!(resolve_operands("sqrt", Some(bits(4.0)), None), Err(CalcError::InvalidInput));
    let mut calc = Calculator::new();
    press(&mut calc, "1", "2", "mod");
    assert_eq!(calc.result, "Error: Unknown operator");
}

#[test]
fn operator_symbols_round_trip() {
    for op in [
        Operator::Add,
        Operator::Subtract,
        Operator::Multiply,
        Operator::Divide,
        Operator::Power,
        Operator::SquareRoot,
    ] {
        assert_eq!(Operator::from_symbol(&op.symbol()), Some(op));
    }
    assert_eq!(Operator::SquareRoot.symbol(), "\u{221a}");
    assert_eq!(Operator::Power.symbol(), "^");
    assert_eq!(Operator::from_symbol("x"), None);
}

#[test]
fn error_messages() {
    assert_eq!(CalcError::InvalidInput.message(), "Invalid input");
    assert_eq!(CalcError::DivideByZero.message(), "Cannot divide by zero");
    assert_eq!(CalcError::NegativeSqrt.message(), "Cannot sqrt negative number");
    assert_eq!(CalcError::UnknownOperator.message(), "Unknown operator");
    assert_eq!(CalcError::NegativeSqrt.error_text(), "Error: Cannot sqrt negative number");
}

#[test]
fn bit_pattern_classification() {
    assert!(is_zero_bits(bits(0.0)));
    assert!(is_zero_bits(bits(-0.0)));
    assert!(!is_zero_bits(bits(5e-324)));
    assert!(!is_zero_bits(bits(f64::NAN)));
    assert!(is_negative_bits(bits(-5e-324)));
    assert!(is_negative_bits(bits(-2.0)));
    assert!(is_negative_bits(bits(f64::NEG_INFINITY)));
    assert!(!is_negative_bits(bits(-0.0)));
    assert!(!is_negative_bits(bits(-f64::NAN)));
    assert!(!is_negative_bits(bits(3.0)));
}

#[test]
fn history_entry_format() {
    assert_eq!(history_entry("6", Operator::Divide, "3", "2"), "6 / 3 = 2");
    assert_eq!(history_entry("9", Operator::SquareRoot, "ignored", "3"), "9 \u{221a} = 3");
    assert_eq!(history_line("1 + 1 = 2"), "1 + 1 = 2\n");
}

#[test]
fn history_file_lines() {
    assert_eq!(parse_history(""), Vec::<String>::new());
    assert_eq!(parse_history("a\nb\n"), vec!["a".to_string(), "b".to_string()]);
    assert_eq!(parse_history("a\r\nb"), vec!["a".to_string(), "b".to_string()]);
    assert_eq!(parse_history("\n"), vec!["".to_string()]);
    assert_eq!(parse_history("x\r"), vec!["x\r".to_string()]);
    assert_eq!(parse_history("\u{221a}\n\n9"), vec!["\u{221a}".to_string(), "".to_string(), "9".to_string()]);
}

#[test]
fn history_survives_a_restart() {
    let mut calc = Calculator::new();
    let mut file = String::new();
    for (a, b, op) in [("6", "3", "/"), ("9", "", "\u{221a}"), ("2", "3", "^"), ("1", "0", "/")] {
        let before = calc.history.len();
        press(&mut calc, a, b, op);
        if calc.history.len() > before {
            file.push_str(&calc.last_history_line().unwrap());
        }
    }
    assert_eq!(calc.history.len(), 3);
    let mut restarted = Calculator::new();
    restarted.load_history(&file);
    assert_eq!(restarted.history, calc.history);
    assert_eq!(restarted.history[2], "2 ^ 3 = 8");
}

#[test]
fn memory_store_recall_and_clear() {
    let mut calc = Calculator::new();
    press(&mut calc, "5", "2", "/");
    assert_eq!(calc.result, "2.5");
    calc.memory_store(parsed(&calc.result));
    press(&mut calc, "1", "1", "+");
    let shown = calc.memory_recall().map(|b| f64::from_bits(b).to_string());
    assert_eq!(shown, Some("2.5".to_string()));
    calc.result = shown.unwrap();
    assert_eq!(calc.result, "2.5");
    calc.memory_clear();
    assert_eq!(calc.memory_recall(), None);
    assert_eq!(calc.result, "2.5");
}

#[test]
fn memory_store_ignores_error_text() {
    let mut calc = Calculator::new();
    press(&mut calc, "6", "0", "/");
    calc.memory_store(parsed(&calc.result));
    assert!(calc.memory.is_empty());
    assert_eq!(calc.memory_recall(), None);
    calc.memory_store(Some(bits(1.0)));
    calc.memory_store(Some(bits(2.0)));
    assert_eq!(calc.memory_recall(), Some(bits(2.0)));
}
