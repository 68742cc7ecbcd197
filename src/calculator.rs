use vstd::prelude::*;
use vstd::string::*;
use crate::history::{entry_of, history_entry, history_line, line_of, lines_of, parse_history, texts_of};
use crate::operation::{error_text_of, resolution_of, resolve_operands, CalcError, Evaluation};

verus! {

/// The memory register after a store of what the result display parsed to
/// (`None` where it did not parse, which stores nothing).
pub open spec fn stored(memory: Seq<u64>, parsed: Option<u64>) -> Seq<u64> {
    match parsed {
        Some(x) => memory.push(x),
        None => memory,
    }
}

/// What a recall reads from the memory register: its last number, if any.
pub open spec fn recalled(memory: Seq<u64>) -> Option<u64> {
    if memory.len() == 0 {
        None
    } else {
        Some(memory.last())
    }
}

/// A recall right after storing `x` reads `x`; a recall right after a clear
/// reads nothing, so the result display stays as it was.
pub proof fn lemma_memory_round_trip(memory: Seq<u64>, x: u64)
    ensures
        recalled(stored(memory, Some(x))) == Some(x),
        recalled(Seq::<u64>::empty()) == None::<u64>,
{
}

/// The state of the calculator: the two operand fields, the result display,
/// the selected operator, the memory register (numbers as binary64 bit
/// patterns), the history log and the theme flag.
pub struct Calculator {
    pub num1: String,
    pub num2: String,
    pub result: String,
    pub selected_operator: String,
    pub memory: Vec<u64>,
    pub history: Vec<String>,
    pub light_mode: bool,
}

impl Calculator {
    /// A calculator with empty fields, memory and history, in dark mode.
    pub fn new() -> (r: Calculator)
        ensures
            r.num1@ == Seq::<char>::empty(),
            r.num2@ == Seq::<char>::empty(),
            r.result@ == Seq::<char>::empty(),
            r.selected_operator@ == Seq::<char>::empty(),
            r.memory@ == Seq::<u64>::empty(),
            r.history@ == Seq::<String>::empty(),
            !r.light_mode,
    {
        Calculator {
            num1: String::new(),
            num2: String::new(),
            result: String::new(),
            selected_operator: String::new(),
            memory: Vec::new(),
            history: Vec::new(),
            light_mode: false,
        }
    }

    /// Replaces the history with the entries of a history file's text.
    pub fn load_history(&mut self, text: &str)
        ensures
            texts_of(final(self).history@) == lines_of(text@),
            final(self).num1 == old(self).num1,
            final(self).num2 == old(self).num2,
            final(self).result == old(self).result,
            final(self).selected_operator == old(self).selected_operator,
            final(self).memory == old(self).memory,
            final(self).light_mode == old(self).light_mode,
    {
        self.history = parse_history(text);
    }

    /// Selects the operator whose button text is `symbol`.
    pub fn select_operator(&mut self, symbol: &str)
        ensures
            final(self).selected_operator@ == symbol@,
            final(self).num1 == old(self).num1,
            final(self).num2 == old(self).num2,
            final(self).result == old(self).result,
            final(self).memory == old(self).memory,
            final(self).history == old(self).history,
            final(self).light_mode == old(self).light_mode,
    {
        self.selected_operator = String::from_str(symbol);
    }

    /// Resolves the operands, given as what the two fields parsed to, under
    /// the selected operator. A failure is shown in the result display and
    /// leaves the history alone; a success hands back the operation to
    /// carry out, with the state unchanged.
    pub fn evaluate_inputs(&mut self, first: Option<u64>, second: Option<u64>) -> (r: Option<
        Evaluation,
    >)
        ensures
            final(self).num1 == old(self).num1,
            final(self).num2 == old(self).num2,
            final(self).selected_operator == old(self).selected_operator,
            final(self).memory == old(self).memory,
            final(self).history == old(self).history,
            final(self).light_mode == old(self).light_mode,
            match resolution_of(old(self).selected_operator@, first, second) {
                Ok(e) => r == Some(e) && final(self).result == old(self).result,
                Err(e) => r is None && final(self).result@ == error_text_of(e),
            },
    {
        match resolve_operands(self.selected_operator.as_str(), first, second) {
            Ok(e) => Some(e),
            Err(e) => {
                self.record_error(e);
                None
            },
        }
    }

    /// Shows an evaluation's value, whose text is `value`, and appends its
    /// entry to the history.
    pub fn record_value(&mut self, evaluation: Evaluation, value: String)
        ensures
            final(self).result@ == value@,
            final(self).history@ == old(self).history@.push(final(self).history@.last()),
            final(self).history@.last()@ == entry_of(
                old(self).num1@,
                evaluation.op,
                old(self).num2@,
                value@,
            ),
            final(self).num1 == old(self).num1,
            final(self).num2 == old(self).num2,
            final(self).selected_operator == old(self).selected_operator,
            final(self).memory == old(self).memory,
            final(self).light_mode == old(self).light_mode,
    {
        let entry = history_entry(
            self.num1.as_str(),
            evaluation.op,
            self.num2.as_str(),
            value.as_str(),
        );
        self.history.push(entry);
        self.result = value;
    }

    /// Shows an error in the result display; the history is left alone.
    pub fn record_error(&mut self, error: CalcError)
        ensures
            final(self).result@ == error_text_of(error),
            final(self).num1 == old(self).num1,
            final(self).num2 == old(self).num2,
            final(self).selected_operator == old(self).selected_operator,
            final(self).memory == old(self).memory,
            final(self).history == old(self).history,
            final(self).light_mode == old(self).light_mode,
    {
        self.result = error.error_text();
    }

    /// The text that the newest history entry adds to the history file.
    pub fn last_history_line(&self) -> (r: Option<String>)
        ensures
            self.history@.len() == 0 ==> r is None,
            self.history@.len() > 0 ==> r is Some && r->0@ == line_of(self.history@.last()@),
    {
        let n = self.history.len();
        if n == 0 {
            None
        } else {
            Some(history_line(self.history[n - 1].as_str()))
        }
    }

    /// Stores what the result display parsed to, if it parsed.
    pub fn memory_store(&mut self, parsed: Option<u64>)
        ensures
            final(self).memory@ == stored(old(self).memory@, parsed),
            final(self).num1 == old(self).num1,
            final(self).num2 == old(self).num2,
            final(self).result == old(self).result,
            final(self).selected_operator == old(self).selected_operator,
            final(self).history == old(self).history,
            final(self).light_mode == old(self).light_mode,
    {
        if let Some(x) = parsed {
            self.memory.push(x);
        }
    }

    /// The number that a recall shows: the last one stored, if any.
    pub fn memory_recall(&self) -> (r: Option<u64>)
        ensures
            r == recalled(self.memory@),
    {
        let n = self.memory.len();
        if n == 0 {
            None
        } else {
            Some(self.memory[n - 1])
        }
    }

    /// Empties the memory register.
    pub fn memory_clear(&mut self)
        ensures
            final(self).memory@ == Seq::<u64>::empty(),
            final(self).num1 == old(self).num1,
            final(self).num2 == old(self).num2,
            final(self).result == old(self).result,
            final(self).selected_operator == old(self).selected_operator,
            final(self).history == old(self).history,
            final(self).light_mode == old(self).light_mode,
    {
        self.memory.clear();
    }
}

} // verus!
