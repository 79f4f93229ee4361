//! The statistics report: orders processed and the level of each container.
use vstd::prelude::*;
use vstd::string::*;

use crate::constants::{
    C_CACAO_STORAGE, G_GRAINS_STORAGE, L_MILK_STORAGE, X_PERCENTAGE_OF_CAPACITY,
};
use crate::container::Container;
use crate::order::{Ingredient, TOTAL_INGREDIENTS, ingredient_at};
use crate::resources::Resources;

verus! {

/// The decimal digit `d`.
pub open spec fn digit_char(d: nat) -> char {
    if d == 0 {
        '0'
    } else if d == 1 {
        '1'
    } else if d == 2 {
        '2'
    } else if d == 3 {
        '3'
    } else if d == 4 {
        '4'
    } else if d == 5 {
        '5'
    } else if d == 6 {
        '6'
    } else if d == 7 {
        '7'
    } else if d == 8 {
        '8'
    } else {
        '9'
    }
}

/// `n` written in decimal, without leading zeros.
pub open spec fn decimal(n: nat) -> Seq<char>
    decreases n,
{
    if n < 10 {
        seq![digit_char(n)]
    } else {
        decimal(n / 10).push(digit_char(n % 10))
    }
}

/// The name under which the report shows `i`.
pub open spec fn ingredient_name(i: Ingredient) -> Seq<char> {
    match i {
        Ingredient::GroundCoffee => "GroundCoffee"@,
        Ingredient::HotWater => "HotWater"@,
        Ingredient::Cacao => "Cacao"@,
        Ingredient::MilkFoam => "MilkFoam"@,
        Ingredient::GrainsToGrind => "GrainsToGrind"@,
        Ingredient::ColdMilk => "ColdMilk"@,
    }
}

/// The part of the report for the containers at the first `n` slots, each as
/// ` Name=(remaining,consumed) `.
pub open spec fn containers_text(containers: Seq<Container>, n: nat) -> Seq<char>
    decreases n,
{
    if n == 0 {
        Seq::empty()
    } else {
        let c = containers[n - 1];
        containers_text(containers, (n - 1) as nat) + " "@ + ingredient_name(ingredient_at(n - 1))
            + "=("@ + decimal(c.remaining as nat) + ","@ + decimal(c.consumed as nat) + ") "@
    }
}

/// The statistics line for `processed` orders and the given containers.
pub open spec fn statistics_text(processed: u64, containers: Seq<Container>) -> Seq<char> {
    "[STATISTICS] Orders processed="@ + decimal(processed as nat)
        + " | Ingredient=(remaining, consumed) |"@ + containers_text(
        containers,
        TOTAL_INGREDIENTS as nat,
    )
}

/// The initial capacity of a bulk reservoir, whose level is watched.
pub open spec fn watched_capacity(i: Ingredient) -> Option<u64> {
    match i {
        Ingredient::Cacao => Some(C_CACAO_STORAGE),
        Ingredient::ColdMilk => Some(L_MILK_STORAGE),
        Ingredient::GrainsToGrind => Some(G_GRAINS_STORAGE),
        _ => None,
    }
}

/// Whether a report warns about `i` holding `remaining`: a bulk reservoir below the
/// warning percentage of its initial capacity.
pub open spec fn below_warning_level(i: Ingredient, remaining: u64) -> bool {
    match watched_capacity(i) {
        Some(capacity) => remaining < capacity * X_PERCENTAGE_OF_CAPACITY / 100,
        None => false,
    }
}

/// The warning line for `i` holding `remaining`.
pub open spec fn warning_text(i: Ingredient, remaining: u64) -> Seq<char> {
    "[WARNING] "@ + ingredient_name(i) + " container below "@ + decimal(
        X_PERCENTAGE_OF_CAPACITY as nat,
    ) + "% capacity at "@ + decimal(remaining as nat)
}

/// The warnings for the containers at the first `n` slots, in slot order.
pub open spec fn warnings_text(containers: Seq<Container>, n: nat) -> Seq<Seq<char>>
    decreases n,
{
    if n == 0 {
        Seq::empty()
    } else {
        let rest = warnings_text(containers, (n - 1) as nat);
        let i = ingredient_at(n - 1);
        if below_warning_level(i, containers[n - 1].remaining) {
            rest.push(warning_text(i, containers[n - 1].remaining))
        } else {
            rest
        }
    }
}

/// The decimal digit `d` as text.
fn digit_text(d: u64) -> (r: &'static str)
    requires
        d < 10,
    ensures
        r@ == seq![digit_char(d as nat)],
{
    proof {
        reveal_strlit("0");
        reveal_strlit("1");
        reveal_strlit("2");
        reveal_strlit("3");
        reveal_strlit("4");
        reveal_strlit("5");
        reveal_strlit("6");
        reveal_strlit("7");
        reveal_strlit("8");
        reveal_strlit("9");
    }
    if d == 0 {
        "0"
    } else if d == 1 {
        "1"
    } else if d == 2 {
        "2"
    } else if d == 3 {
        "3"
    } else if d == 4 {
        "4"
    } else if d == 5 {
        "5"
    } else if d == 6 {
        "6"
    } else if d == 7 {
        "7"
    } else if d == 8 {
        "8"
    } else {
        "9"
    }
}

/// `n` written in decimal.
pub fn decimal_text(n: u64) -> (r: String)
    ensures
        r@ == decimal(n as nat),
    decreases n,
{
    if n < 10 {
        String::from_str(digit_text(n))
    } else {
        let mut s = decimal_text(n / 10);
        s.append(digit_text(n % 10));
        assert(s@ =~= decimal(n as nat));
        s
    }
}

impl Ingredient {
    /// The name under which the report shows this ingredient.
    pub fn name(&self) -> (r: &'static str)
        ensures
            r@ == ingredient_name(*self),
    {
        match self {
            Ingredient::GroundCoffee => "GroundCoffee",
            Ingredient::HotWater => "HotWater",
            Ingredient::Cacao => "Cacao",
            Ingredient::MilkFoam => "MilkFoam",
            Ingredient::GrainsToGrind => "GrainsToGrind",
            Ingredient::ColdMilk => "ColdMilk",
        }
    }
}

/// Whether a report warns about `ingredient` holding `remaining`.
pub fn print_warning_if_below_x_level(ingredient: Ingredient, remaining: u64) -> (r: bool)
    ensures
        r == below_warning_level(ingredient, remaining),
{
    match ingredient {
        Ingredient::Cacao => handle_warning_level(remaining, C_CACAO_STORAGE),
        Ingredient::ColdMilk => handle_warning_level(remaining, L_MILK_STORAGE),
        Ingredient::GrainsToGrind => handle_warning_level(remaining, G_GRAINS_STORAGE),
        _ => false,
    }
}

/// Whether `remaining` is below the warning percentage of `initial_level`.
fn handle_warning_level(remaining: u64, initial_level: u64) -> (r: bool)
    requires
        initial_level <= C_CACAO_STORAGE,
    ensures
        r == (remaining < initial_level * X_PERCENTAGE_OF_CAPACITY / 100),
{
    remaining < initial_level * X_PERCENTAGE_OF_CAPACITY / 100
}

/// The warning line for `ingredient` holding `remaining`.
pub fn warning_line(ingredient: Ingredient, remaining: u64) -> (r: String)
    ensures
        r@ == warning_text(ingredient, remaining),
{
    let mut s = String::from_str("[WARNING] ");
    s.append(ingredient.name());
    s.append(" container below ");
    let percentage = decimal_text(X_PERCENTAGE_OF_CAPACITY);
    s.append(percentage.as_str());
    s.append("% capacity at ");
    let level = decimal_text(remaining);
    s.append(level.as_str());
    s
}

/// Produces the statistics report.
pub struct StatisticsPrinter {
    finished: bool,
}

impl StatisticsPrinter {
    /// Whether the printer was told to stop.
    pub closed spec fn spec_finished(&self) -> bool {
        self.finished
    }

    pub fn new() -> (r: StatisticsPrinter)
        ensures
            !r.spec_finished(),
    {
        StatisticsPrinter { finished: false }
    }

    /// Tells the printer to stop after its next report.
    pub fn finish(&mut self)
        ensures
            final(self).spec_finished(),
    {
        self.finished = true;
    }

    pub fn is_finished(&self) -> (r: bool)
        ensures
            r == self.spec_finished(),
    {
        self.finished
    }

    /// The statistics line: the orders processed, then each container's remaining and
    /// consumed quantities, in slot order.
    pub fn statistics_line(&self, orders_processed: u64, resources: &Resources) -> (r: String)
        requires
            resources.wf(),
        ensures
            r@ == statistics_text(orders_processed, resources@.containers),
    {
        let mut s = String::from_str("[STATISTICS] Orders processed=");
        let processed = decimal_text(orders_processed);
        s.append(processed.as_str());
        s.append(" | Ingredient=(remaining, consumed) |");
        self.add_resources_to_statistics_string(&mut s, resources);
        s
    }

    /// Appends to `statistics` each container's remaining and consumed quantities, in
    /// slot order.
    pub fn add_resources_to_statistics_string(&self, statistics: &mut String, resources: &Resources)
        requires
            resources.wf(),
        ensures
            final(statistics)@ == old(statistics)@ + containers_text(
                resources@.containers,
                TOTAL_INGREDIENTS as nat,
            ),
    {
        let ghost head = statistics@;
        let mut k: usize = 0;
        assert(head =~= head + containers_text(resources@.containers, 0));
        while k < TOTAL_INGREDIENTS
            invariant
                k <= TOTAL_INGREDIENTS,
                resources.wf(),
                statistics@ == head + containers_text(resources@.containers, k as nat),
            decreases TOTAL_INGREDIENTS - k,
        {
            self.add_resource_to_statistics_string(statistics, resources, k);
            k = k + 1;
        }
    }

    /// Appends the part of the statistics line for the container at slot `k`.
    fn add_resource_to_statistics_string(&self, statistics: &mut String, resources: &Resources, k: usize)
        requires
            resources.wf(),
            k < TOTAL_INGREDIENTS,
        ensures
            final(statistics)@ == old(statistics)@ + " "@ + ingredient_name(ingredient_at(k as int))
                + "=("@ + decimal(resources@.containers[k as int].remaining as nat) + ","@
                + decimal(resources@.containers[k as int].consumed as nat) + ") "@,
    {
        let ingredient = Ingredient::at(k);
        let container = resources.get(ingredient);
        statistics.append(" ");
        statistics.append(ingredient.name());
        statistics.append("=(");
        let remaining = decimal_text(container.remaining);
        statistics.append(remaining.as_str());
        statistics.append(",");
        let consumed = decimal_text(container.consumed);
        statistics.append(consumed.as_str());
        statistics.append(") ");
    }

    /// The warning lines for the bulk reservoirs that run low, in slot order.
    pub fn warning_lines(&self, resources: &Resources) -> (r: Vec<String>)
        requires
            resources.wf(),
        ensures
            r@.map_values(|l: String| l@) == warnings_text(
                resources@.containers,
                TOTAL_INGREDIENTS as nat,
            ),
    {
        let mut lines: Vec<String> = Vec::new();
        let mut k: usize = 0;
        while k < TOTAL_INGREDIENTS
            invariant
                k <= TOTAL_INGREDIENTS,
                resources.wf(),
                lines@.map_values(|l: String| l@) == warnings_text(
                    resources@.containers,
                    k as nat,
                ),
            decreases TOTAL_INGREDIENTS - k,
        {
            let ingredient = Ingredient::at(k);
            let container = resources.get(ingredient);
            let ghost prev = lines@;
            if print_warning_if_below_x_level(ingredient, container.remaining) {
                lines.push(warning_line(ingredient, container.remaining));
                assert(lines@.map_values(|l: String| l@) =~= prev.map_values(|l: String| l@).push(
                    warning_text(ingredient, container.remaining),
                ));
            }
            k = k + 1;
        }
        lines
    }

    /// One report: the statistics line then the warnings. The second part of the result
    /// says whether reporting goes on: not once the printer was told to stop.
    pub fn process_statistics(&self, orders_processed: u64, resources: &Resources) -> (r: (
        Vec<String>,
        bool,
    ))
        requires
            resources.wf(),
        ensures
            r.0@.map_values(|l: String| l@) == seq![
                statistics_text(orders_processed, resources@.containers),
            ] + warnings_text(resources@.containers, TOTAL_INGREDIENTS as nat),
            r.1 == !self.spec_finished(),
    {
        let mut lines: Vec<String> = Vec::new();
        lines.push(self.statistics_line(orders_processed, resources));
        let mut warnings = self.warning_lines(resources);
        let ghost w = warnings@;
        lines.append(&mut warnings);
        assert(lines@.map_values(|l: String| l@) =~= seq![
            statistics_text(orders_processed, resources@.containers),
        ] + w.map_values(|l: String| l@));
        (lines, !self.finished)
    }
}

} // verus!
