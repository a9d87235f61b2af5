//! The function catalogue: the active functions, the global amplitude and
//! frequency, and the menu of variants, driven one key at a time.
//!
//! Every entry's samples always match the current parameters: each command
//! that changes a parameter regenerates every entry before it returns.
use vstd::prelude::*;
use crate::fixed::MICRO;
use crate::functions::{
    grid_x, samples_of, Comparison, SAMPLE_COUNT, Function, FunctionType, Sample, PARAM_CEILING,
    PARAM_FLOOR, PARAM_UNIT,
};

verus! {

/// Number of variants the menu offers.
pub const MENU_LEN: usize = 8;

/// What a catalogue entry holds, as spec values.
pub struct FunctionView {
    pub name: Seq<char>,
    pub func_type: FunctionType,
    pub data: Seq<Sample>,
}

impl View for Function {
    type V = FunctionView;

    open spec fn view(&self) -> FunctionView {
        FunctionView { name: self.name@, func_type: self.func_type, data: self.data@ }
    }
}

/// The error a catalogue command reports.
#[derive(PartialEq, Eq, Structural, Clone, Copy, Debug)]
pub enum CatalogError {
    /// The index or selection refers to no entry.
    NotFound,
}

/// A key press, as far as the catalogue tells keys apart.
#[derive(PartialEq, Eq, Structural, Clone, Copy, Debug)]
pub enum Key {
    Esc,
    Enter,
    Up,
    Down,
    Left,
    Right,
    Char(char),
    Other,
}

/// The application state: catalogue, parameters (tenths) and menu.
pub struct App {
    pub functions: Vec<Function>,
    pub available_functions: Vec<String>,
    pub amplitude: u64,
    pub frequency: u64,
    pub show_instructions: bool,
    pub show_menu: bool,
    pub menu_state: Option<usize>,
}

/// The application state as spec values.
pub struct AppView {
    pub functions: Seq<FunctionView>,
    pub names: Seq<Seq<char>>,
    pub amplitude: int,
    pub frequency: int,
    pub show_instructions: bool,
    pub show_menu: bool,
    pub menu_state: Option<usize>,
}

impl View for App {
    type V = AppView;

    open spec fn view(&self) -> AppView {
        AppView {
            functions: self.functions@.map_values(|f: Function| f@),
            names: self.available_functions@.map_values(|s: String| s@),
            amplitude: self.amplitude as int,
            frequency: self.frequency as int,
            show_instructions: self.show_instructions,
            show_menu: self.show_menu,
            menu_state: self.menu_state,
        }
    }
}

/// The menu's entries, in order.
pub open spec fn menu_names() -> Seq<Seq<char>> {
    seq![
        "sin(x)"@,
        "cos(x)"@,
        "tan(x)"@,
        "sec(x)"@,
        "csc(x)"@,
        "cot(x)"@,
        "Parametric: (cos(t), sin(t))"@,
        "Inequality: x > 0"@,
    ]
}

/// The variant the `i`-th menu entry stands for.
pub open spec fn menu_variant(i: int) -> FunctionType {
    if i == 0 {
        FunctionType::Sine
    } else if i == 1 {
        FunctionType::Cosine
    } else if i == 2 {
        FunctionType::Tangent
    } else if i == 3 {
        FunctionType::Secant
    } else if i == 4 {
        FunctionType::Cosecant
    } else if i == 5 {
        FunctionType::Cotangent
    } else if i == 6 {
        FunctionType::Parametric
    } else {
        FunctionType::Inequality { op: Comparison::Greater, threshold: 0 }
    }
}

/// One step up, capped at the ceiling.
pub open spec fn raised(p: int) -> int {
    if p < PARAM_CEILING { p + 1 } else { p }
}

/// One step down, never below the floor.
pub open spec fn lowered(p: int) -> int {
    if p > PARAM_FLOOR { p - 1 } else { p }
}

/// `p` after `n` steps down.
pub open spec fn lowered_times(p: int, n: nat) -> int
    decreases n,
{
    if n == 0 { p } else { lowered(lowered_times(p, (n - 1) as nat)) }
}

/// Every entry resampled at amplitude `a` and frequency `f`.
pub open spec fn regenerated(fs: Seq<FunctionView>, a: int, f: int) -> Seq<FunctionView> {
    fs.map_values(|e: FunctionView| FunctionView { data: samples_of(e.func_type, a, f), ..e })
}

/// Whether every entry holds the samples of amplitude `a` and frequency `f`.
pub open spec fn all_current(fs: Seq<FunctionView>, a: int, f: int) -> bool {
    forall|i: int| 0 <= i < fs.len() ==> (#[trigger] fs[i]).data == samples_of(fs[i].func_type, a, f)
}

/// The state with new parameters and every entry resampled.
pub open spec fn with_params(v: AppView, a: int, f: int) -> AppView {
    AppView { amplitude: a, frequency: f, functions: regenerated(v.functions, a, f), ..v }
}

/// The state with one more entry, sampled at the current parameters.
pub open spec fn with_added(v: AppView, name: Seq<char>, ft: FunctionType) -> AppView {
    AppView {
        functions: v.functions.push(
            FunctionView { name, func_type: ft, data: samples_of(ft, v.amplitude, v.frequency) },
        ),
        ..v
    }
}

/// The menu selection after moving up, wrapping from the first to the last entry.
pub open spec fn menu_up_of(sel: Option<usize>, len: int) -> Option<usize> {
    match sel {
        Some(i) => Some((if i == 0 { len - 1 } else { i - 1 }) as usize),
        None => Some(0),
    }
}

/// The menu selection after moving down, wrapping from the last to the first entry.
pub open spec fn menu_down_of(sel: Option<usize>, len: int) -> Option<usize> {
    match sel {
        Some(i) => Some((if i >= len - 1 { 0 } else { i + 1 }) as usize),
        None => Some(0),
    }
}

/// The state after confirming the highlighted menu entry.
pub open spec fn with_selection(v: AppView) -> AppView {
    match v.menu_state {
        Some(i) => if i < v.names.len() {
            AppView { show_menu: false, ..with_added(v, v.names[i as int], menu_variant(i as int)) }
        } else {
            v
        },
        None => v,
    }
}

/// The state after a key press, and whether the session goes on.
///
/// With the menu open, Up and Down move the highlight, Enter adds the
/// highlighted variant, `m` and Esc close the menu. Otherwise `s`, `c` and `p`
/// add a sine, cosine or parametric function, `r` clears the catalogue, `m`
/// opens the menu, Up and Down step the amplitude, Right and Left the
/// frequency, and Esc ends the session. Other keys change nothing.
pub open spec fn key_step(v: AppView, key: Key) -> (AppView, bool) {
    if v.show_menu {
        match key {
            Key::Up => (AppView { menu_state: menu_up_of(v.menu_state, v.names.len() as int), ..v }, true),
            Key::Down => (AppView { menu_state: menu_down_of(v.menu_state, v.names.len() as int), ..v }, true),
            Key::Enter => (with_selection(v), true),
            Key::Esc => (AppView { show_menu: false, ..v }, true),
            Key::Char(c) => if c == 'm' { (AppView { show_menu: false, ..v }, true) } else { (v, true) },
            _ => (v, true),
        }
    } else {
        match key {
            Key::Esc => (v, false),
            Key::Up => (with_params(v, raised(v.amplitude), v.frequency), true),
            Key::Down => (with_params(v, lowered(v.amplitude), v.frequency), true),
            Key::Right => (with_params(v, v.amplitude, raised(v.frequency)), true),
            Key::Left => (with_params(v, v.amplitude, lowered(v.frequency)), true),
            Key::Char(c) => if c == 's' {
                (with_added(v, menu_names()[0], FunctionType::Sine), true)
            } else if c == 'c' {
                (with_added(v, menu_names()[1], FunctionType::Cosine), true)
            } else if c == 'p' {
                (with_added(v, menu_names()[6], FunctionType::Parametric), true)
            } else if c == 'r' {
                (AppView { functions: Seq::empty(), ..v }, true)
            } else if c == 'm' {
                (AppView { show_menu: true, ..v }, true)
            } else {
                (v, true)
            },
            _ => (v, true),
        }
    }
}

impl AppView {
    /// Parameters in range, the menu's own entries, and a highlight on one of them.
    pub open spec fn settings_ok(&self) -> bool {
        &&& PARAM_FLOOR <= self.amplitude <= PARAM_CEILING
        &&& PARAM_FLOOR <= self.frequency <= PARAM_CEILING
        &&& self.names == menu_names()
        &&& match self.menu_state {
            Some(i) => i < self.names.len(),
            None => true,
        }
    }

    /// The state's invariant: settings in range and every entry's samples current.
    pub open spec fn wf(&self) -> bool {
        &&& self.settings_ok()
        &&& all_current(self.functions, self.amplitude, self.frequency)
    }
}

/// The variant of the `i`-th menu entry.
fn variant_at(i: usize) -> (r: FunctionType)
    ensures
        r == menu_variant(i as int),
{
    match i {
        0 => FunctionType::Sine,
        1 => FunctionType::Cosine,
        2 => FunctionType::Tangent,
        3 => FunctionType::Secant,
        4 => FunctionType::Cosecant,
        5 => FunctionType::Cotangent,
        6 => FunctionType::Parametric,
        _ => FunctionType::Inequality { op: Comparison::Greater, threshold: 0 },
    }
}

impl App {
    /// An empty catalogue at amplitude and frequency `1.0`, with the menu
    /// hidden and its first entry highlighted.
    pub fn new() -> (r: App)
        ensures
            r@.wf(),
            r@.functions.len() == 0,
            r@.names == menu_names(),
            r@.amplitude == PARAM_UNIT,
            r@.frequency == PARAM_UNIT,
            r@.show_instructions,
            !r@.show_menu,
            r@.menu_state == Some(0usize),
    {
        let available_functions = vec![
            "sin(x)".to_string(),
            "cos(x)".to_string(),
            "tan(x)".to_string(),
            "sec(x)".to_string(),
            "csc(x)".to_string(),
            "cot(x)".to_string(),
            "Parametric: (cos(t), sin(t))".to_string(),
            "Inequality: x > 0".to_string(),
        ];
        assert(available_functions@.map_values(|s: String| s@) =~= menu_names());
        App {
            functions: Vec::new(),
            available_functions,
            amplitude: PARAM_UNIT,
            frequency: PARAM_UNIT,
            show_instructions: true,
            show_menu: false,
            menu_state: Some(0),
        }
    }

    /// Shows the menu if hidden, hides it if shown.
    pub fn toggle_menu(&mut self)
        ensures
            final(self)@ == (AppView { show_menu: !old(self)@.show_menu, ..old(self)@ }),
    {
        self.show_menu = !self.show_menu;
    }

    /// Moves the highlight one entry up, from the first to the last.
    pub fn menu_up(&mut self)
        requires
            old(self)@.names.len() > 0,
        ensures
            final(self)@ == (AppView {
                menu_state: menu_up_of(old(self)@.menu_state, old(self)@.names.len() as int),
                ..old(self)@
            }),
    {
        let i = match self.menu_state {
            Some(i) => {
                if i == 0 {
                    self.available_functions.len() - 1
                } else {
                    i - 1
                }
            },
            None => 0,
        };
        self.menu_state = Some(i);
    }

    /// Moves the highlight one entry down, from the last to the first.
    pub fn menu_down(&mut self)
        requires
            old(self)@.names.len() > 0,
        ensures
            final(self)@ == (AppView {
                menu_state: menu_down_of(old(self)@.menu_state, old(self)@.names.len() as int),
                ..old(self)@
            }),
    {
        let i = match self.menu_state {
            Some(i) => {
                if i >= self.available_functions.len() - 1 {
                    0
                } else {
                    i + 1
                }
            },
            None => 0,
        };
        self.menu_state = Some(i);
    }

    /// Adds the highlighted menu entry and closes the menu; `NotFound`
    /// where nothing is highlighted.
    pub fn select_function(&mut self) -> (r: Result<(), CatalogError>)
        requires
            old(self)@.wf(),
        ensures
            final(self)@ == with_selection(old(self)@),
            final(self)@.wf(),
            r is Ok <==> old(self)@.menu_state is Some,
            r is Err ==> r == Err::<(), CatalogError>(CatalogError::NotFound),
    {
        if let Some(i) = self.menu_state {
            if i < self.available_functions.len() {
                let name = self.available_functions[i].clone();
                let func_type = variant_at(i);
                self.add_function(name, func_type);
                self.show_menu = false;
                return Ok(());
            }
        }
        Err(CatalogError::NotFound)
    }

    /// Appends an entry sampled at the current amplitude and frequency.
    pub fn add_function(&mut self, name: String, func_type: FunctionType)
        requires
            old(self)@.wf(),
        ensures
            final(self)@ == with_added(old(self)@, name@, func_type),
            final(self)@.wf(),
    {
        let data = Function::generate(&func_type, self.amplitude, self.frequency);
        let ghost entry = FunctionView { name: name@, func_type, data: data@ };
        self.functions.push(Function { name, func_type, data });
        assert(self@.functions =~= old(self)@.functions.push(entry));
    }

    /// Removes the entry at `index`; `NotFound`, and no change, where there is none.
    pub fn remove_function(&mut self, index: usize) -> (r: Result<(), CatalogError>)
        requires
            old(self)@.wf(),
        ensures
            final(self)@.wf(),
            index < old(self)@.functions.len() ==> r is Ok && final(self)@ == (AppView {
                functions: old(self)@.functions.remove(index as int),
                ..old(self)@
            }),
            index >= old(self)@.functions.len() ==> r == Err::<(), CatalogError>(
                CatalogError::NotFound,
            ) && final(self)@ == old(self)@,
    {
        if index < self.functions.len() {
            self.functions.remove(index);
            assert(self@.functions =~= old(self)@.functions.remove(index as int));
            Ok(())
        } else {
            Err(CatalogError::NotFound)
        }
    }

    /// Clears the catalogue; the parameters stay.
    pub fn reset_graph(&mut self)
        requires
            old(self)@.wf(),
        ensures
            final(self)@ == (AppView { functions: Seq::empty(), ..old(self)@ }),
            final(self)@.wf(),
    {
        self.functions.clear();
        assert(self@.functions =~= Seq::empty());
    }

    /// Raises the amplitude by one tenth, up to the ceiling, and resamples.
    pub fn increase_amplitude(&mut self)
        requires
            old(self)@.wf(),
        ensures
            final(self)@ == with_params(old(self)@, raised(old(self)@.amplitude), old(self)@.frequency),
            final(self)@.wf(),
    {
        if self.amplitude < PARAM_CEILING {
            self.amplitude = self.amplitude + 1;
        }
        self.update_functions();
    }

    /// Lowers the amplitude by one tenth, never below the floor, and resamples.
    pub fn decrease_amplitude(&mut self)
        requires
            old(self)@.wf(),
        ensures
            final(self)@ == with_params(old(self)@, lowered(old(self)@.amplitude), old(self)@.frequency),
            final(self)@.wf(),
    {
        if self.amplitude > PARAM_FLOOR {
            self.amplitude = self.amplitude - 1;
        }
        self.update_functions();
    }

    /// Raises the frequency by one tenth, up to the ceiling, and resamples.
    pub fn increase_frequency(&mut self)
        requires
            old(self)@.wf(),
        ensures
            final(self)@ == with_params(old(self)@, old(self)@.amplitude, raised(old(self)@.frequency)),
            final(self)@.wf(),
    {
        if self.frequency < PARAM_CEILING {
            self.frequency = self.frequency + 1;
        }
        self.update_functions();
    }

    /// Lowers the frequency by one tenth, never below the floor, and resamples.
    pub fn decrease_frequency(&mut self)
        requires
            old(self)@.wf(),
        ensures
            final(self)@ == with_params(old(self)@, old(self)@.amplitude, lowered(old(self)@.frequency)),
            final(self)@.wf(),
    {
        if self.frequency > PARAM_FLOOR {
            self.frequency = self.frequency - 1;
        }
        self.update_functions();
    }

    /// Resamples every entry at the current amplitude and frequency.
    pub fn update_functions(&mut self)
        requires
            old(self)@.settings_ok(),
        ensures
            final(self)@ == with_params(old(self)@, old(self)@.amplitude, old(self)@.frequency),
            final(self)@.wf(),
    {
        let ghost start = self@;
        let amplitude = self.amplitude;
        let frequency = self.frequency;
        let n = self.functions.len();
        let mut i: usize = 0;
        while i < n
            invariant
                start == old(self)@,
                start.settings_ok(),
                amplitude == start.amplitude,
                frequency == start.frequency,
                n == self.functions.len(),
                n == start.functions.len(),
                i <= n,
                self@ == (AppView { functions: self@.functions, ..start }),
                forall|j: int|
                    0 <= j < i ==> (#[trigger] self.functions@[j])@ == regenerated(
                        start.functions,
                        amplitude as int,
                        frequency as int,
                    )[j],
                forall|j: int| i <= j < n ==> (#[trigger] self.functions@[j])@ == start.functions[j],
            decreases n - i,
        {
            let ghost before = self.functions@;
            self.functions[i].update_data(amplitude, frequency);
            assert(forall|j: int| 0 <= j < n && j != i ==> self.functions@[j] == before[j]);
            i = i + 1;
        }
        assert(self@.functions =~= regenerated(start.functions, amplitude as int, frequency as int));
    }

    /// Applies one key press; the result says whether the session goes on.
    pub fn on_key(&mut self, key: Key) -> (running: bool)
        requires
            old(self)@.wf(),
        ensures
            (final(self)@, running) == key_step(old(self)@, key),
            final(self)@.wf(),
    {
        if self.show_menu {
            match key {
                Key::Up => self.menu_up(),
                Key::Down => self.menu_down(),
                Key::Enter => {
                    let _ = self.select_function();
                },
                Key::Esc => self.show_menu = false,
                Key::Char(c) => {
                    if c == 'm' {
                        self.show_menu = false;
                    }
                },
                _ => {},
            }
            true
        } else {
            match key {
                Key::Esc => {
                    return false;
                },
                Key::Up => self.increase_amplitude(),
                Key::Down => self.decrease_amplitude(),
                Key::Right => self.increase_frequency(),
                Key::Left => self.decrease_frequency(),
                Key::Char(c) => {
                    if c == 's' {
                        self.add_function("sin(x)".to_string(), FunctionType::Sine);
                    } else if c == 'c' {
                        self.add_function("cos(x)".to_string(), FunctionType::Cosine);
                    } else if c == 'p' {
                        self.add_function(
                            "Parametric: (cos(t), sin(t))".to_string(),
                            FunctionType::Parametric,
                        );
                    } else if c == 'r' {
                        self.reset_graph();
                    } else if c == 'm' {
                        self.show_menu = true;
                    }
                },
                _ => {},
            }
            true
        }
    }
}

/// Reading the samples of a just-added entry gives 101 points (none for an
/// inequality); for the periodic variants the k-th x-value is `(k - 50) / 5`,
/// so the grid runs from -10 to 10 in steps of 0.2.
pub proof fn lemma_added_samples(v: AppView, name: Seq<char>, ft: FunctionType)
    ensures
        ({
            let data = with_added(v, name, ft).functions.last().data;
            &&& data.len() == if ft is Inequality { 0 } else { SAMPLE_COUNT as int }
            &&& !(ft is Inequality) && !(ft is Parametric) ==> forall|k: int|
                0 <= k < data.len() ==> (#[trigger] data[k]).x == grid_x(k)
        }),
        grid_x(0) == -10 * MICRO,
        grid_x(SAMPLE_COUNT - 1) == 10 * MICRO,
        forall|k: int| #[trigger] grid_x(k + 1) - grid_x(k) == MICRO / 5,
{
}

/// Resampling twice in a row, with no parameter change between, gives the
/// same state as resampling once.
pub proof fn lemma_regenerate_idempotent(v: AppView)
    ensures
        ({
            let once = with_params(v, v.amplitude, v.frequency);
            with_params(once, once.amplitude, once.frequency) == once
        }),
{
    let once = with_params(v, v.amplitude, v.frequency);
    assert(regenerated(once.functions, once.amplitude, once.frequency) =~= once.functions);
}

/// However many steps down are taken, a parameter at or above the floor
/// stays at or above it, and enough steps leave it exactly at the floor.
pub proof fn lemma_floor_holds(p: int, n: nat)
    requires
        PARAM_FLOOR <= p,
    ensures
        lowered_times(p, n) >= PARAM_FLOOR,
        n >= p - PARAM_FLOOR ==> lowered_times(p, n) == PARAM_FLOOR,
        n <= p - PARAM_FLOOR ==> lowered_times(p, n) == p - n,
    decreases n,
{
    if n > 0 {
        lemma_floor_holds(p, (n - 1) as nat);
    }
}

} // verus!
