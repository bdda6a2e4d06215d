//! The account plan rows a decision's Broker commands need, counted in issue order as the
//! runner counts them while the kernel issues them.
use crate::decision_v6::{
    status_is_terminal, BrokerDetailV6, DecisionContextV6, DecisionResultV6, BrokerOrderV6, CancelTargetV6, DeploymentModeV6,
    OrderActionV6, OrderTypeV6, StrategyCommandV6, ACKNOWLEDGEMENT_PLAN_ROWS,
    CANCEL_ALL_ORDERS_PLAN_ROWS, CANCEL_ORDER_PLAN_ROWS, COLLAPSED_PLACE_PLAN_ROWS,
    DECISION_PLAN_ROWS, PLACE_ORDER_PLAN_ROWS, REFUSED_COMMAND_PLAN_ROWS,
};
use crate::text::{string_eq, string_views, strings_contain};
use vstd::prelude::*;

verus! {

/// The list with `x` added at its end, unless it is there already.
pub open spec fn insert_absent(s: Seq<Seq<char>>, x: Seq<char>) -> Seq<Seq<char>> {
    if s.contains(x) {
        s
    } else {
        s.push(x)
    }
}

/// The ids of the orders that are not final, each once, in order.
pub open spec fn active_order_ids(s: Seq<BrokerOrderV6>) -> Seq<Seq<char>>
    decreases s.len(),
{
    if s.len() == 0 {
        Seq::empty()
    } else {
        let rest = active_order_ids(s.drop_last());
        if status_is_terminal(s.last().status) {
            rest
        } else {
            insert_absent(rest, s.last().order_id@)
        }
    }
}

/// The count of the orders that are not final.
pub open spec fn open_order_count(s: Seq<BrokerOrderV6>) -> nat
    decreases s.len(),
{
    if s.len() == 0 {
        0
    } else {
        open_order_count(s.drop_last()) + if status_is_terminal(s.last().status) {
            0nat
        } else {
            1nat
        }
    }
}

/// The state of a count: rows of the Broker commands so far, how many there were, whether the
/// result acknowledges anything, the mode, and the orders a cancel-all would cancel (open
/// context orders by order id, the decision's own places by client id).
#[verifier::ext_equal]
pub struct PlanRowsModel {
    pub rows: int,
    pub broker_commands: int,
    pub acknowledgements: bool,
    pub mode: DeploymentModeV6,
    pub context_orders: Seq<Seq<char>>,
    pub own_places: Seq<Seq<char>>,
}

pub open spec fn plan_rows_initial(
    broker: BrokerDetailV6,
    acknowledgements: bool,
    mode: DeploymentModeV6,
) -> PlanRowsModel {
    PlanRowsModel {
        rows: 0,
        broker_commands: 0,
        acknowledgements,
        mode,
        context_orders: active_order_ids(broker.orders@),
        own_places: Seq::empty(),
    }
}

/// The order is in the context and already final.
pub open spec fn final_order_named(o: BrokerOrderV6, order_id: Seq<char>) -> bool {
    o.order_id@ == order_id && status_is_terminal(o.status)
}

/// The rows one command adds:
/// - a place 5, and in live 1 more for the receipt of a refused Market sell;
/// - a cancel 3, or 1 when its target is already final in the context (it is refused);
/// - in paper, a cancel-all 3 plus 1 per order it would cancel;
/// - in live, a cancel-all 3 per open context order plus 1 per own place, at least 1;
/// - timer and stop commands none.
pub open spec fn command_rows(m: PlanRowsModel, c: StrategyCommandV6, broker: BrokerDetailV6) -> int {
    match c {
        StrategyCommandV6::PlaceOrder(o) => PLACE_ORDER_PLAN_ROWS + if m.mode is Live
            && o.action is Sell && o.order_type is Market {
            REFUSED_COMMAND_PLAN_ROWS as int
        } else {
            0
        },
        StrategyCommandV6::CancelOrder { target: CancelTargetV6::Order { order_id, .. }, .. } => {
            if exists|i: int|
                0 <= i < broker.orders@.len() && #[trigger] final_order_named(
                    broker.orders@[i],
                    order_id@,
                ) {
                REFUSED_COMMAND_PLAN_ROWS as int
            } else {
                CANCEL_ORDER_PLAN_ROWS as int
            }
        },
        StrategyCommandV6::CancelOrder { .. } => CANCEL_ORDER_PLAN_ROWS as int,
        StrategyCommandV6::CancelAllOrders { .. } => match m.mode {
            DeploymentModeV6::Paper => CANCEL_ALL_ORDERS_PLAN_ROWS + m.context_orders.len()
                + m.own_places.len(),
            DeploymentModeV6::Live => {
                let rows = CANCEL_ORDER_PLAN_ROWS * m.context_orders.len()
                    + COLLAPSED_PLACE_PLAN_ROWS * m.own_places.len();
                if rows < REFUSED_COMMAND_PLAN_ROWS {
                    REFUSED_COMMAND_PLAN_ROWS as int
                } else {
                    rows
                }
            },
        },
        _ => 0,
    }
}

/// The count after one more command: a place joins the orders a cancel-all would cancel, a
/// cancel-all empties them, and every Broker command adds its rows.
pub open spec fn plan_rows_step(m: PlanRowsModel, c: StrategyCommandV6, broker: BrokerDetailV6) -> PlanRowsModel {
    match c {
        StrategyCommandV6::PlaceOrder(o) => PlanRowsModel {
            rows: m.rows + command_rows(m, c, broker),
            broker_commands: m.broker_commands + 1,
            own_places: insert_absent(m.own_places, o.provider_client_id@),
            ..m
        },
        StrategyCommandV6::CancelOrder { .. } => PlanRowsModel {
            rows: m.rows + command_rows(m, c, broker),
            broker_commands: m.broker_commands + 1,
            ..m
        },
        StrategyCommandV6::CancelAllOrders { .. } => PlanRowsModel {
            rows: m.rows + command_rows(m, c, broker),
            broker_commands: m.broker_commands + 1,
            context_orders: Seq::empty(),
            own_places: Seq::empty(),
            ..m
        },
        _ => m,
    }
}

/// The rows of the decision: none without a Broker command; otherwise the fixed decision rows,
/// the commands' rows, and one more when the result acknowledges anything.
pub open spec fn plan_rows_total(m: PlanRowsModel) -> int {
    if m.broker_commands == 0 {
        0
    } else {
        DECISION_PLAN_ROWS + m.rows + if m.acknowledgements {
            ACKNOWLEDGEMENT_PLAN_ROWS as int
        } else {
            0
        }
    }
}

/// The count after the first `n` commands.
pub open spec fn plan_rows_after(
    m: PlanRowsModel,
    commands: Seq<StrategyCommandV6>,
    broker: BrokerDetailV6,
    n: nat,
) -> PlanRowsModel
    decreases n,
{
    if n == 0 {
        m
    } else {
        plan_rows_step(plan_rows_after(m, commands, broker, (n - 1) as nat), commands[n - 1], broker)
    }
}

/// A count can take one more command without passing the machine word.
pub open spec fn plan_rows_room(m: PlanRowsModel) -> bool {
    &&& m.rows + 3 * (m.context_orders.len() + m.own_places.len()) + 12 <= usize::MAX
    &&& m.broker_commands + 1 <= usize::MAX
}

/// Counts the account plan rows a decision's Broker commands need, as the runner does while
/// the kernel issues them, in issue order. The count is an upper bound of the Broker's: a
/// command the Broker refuses costs [`REFUSED_COMMAND_PLAN_ROWS`] instead, and an order already
/// being cancelled is still counted.
#[derive(Clone, Debug)]
pub struct DecisionPlanRows {
    rows: usize,
    broker_commands: usize,
    acknowledgements: bool,
    mode: DeploymentModeV6,
    /// Open context orders a cancel-all would cancel, by order id.
    context_orders: Vec<String>,
    /// This decision's own places a cancel-all would cancel, by client id.
    own_places: Vec<String>,
}

impl View for DecisionPlanRows {
    type V = PlanRowsModel;

    closed spec fn view(&self) -> PlanRowsModel {
        PlanRowsModel {
            rows: self.rows as int,
            broker_commands: self.broker_commands as int,
            acknowledgements: self.acknowledgements,
            mode: self.mode,
            context_orders: string_views(self.context_orders@),
            own_places: string_views(self.own_places@),
        }
    }
}

fn copy_strings(v: &Vec<String>) -> (r: Vec<String>)
    ensures
        string_views(r@) == string_views(v@),
{
    let mut out: Vec<String> = Vec::new();
    let mut i: usize = 0;
    while i < v.len()
        invariant
            0 <= i <= v@.len(),
            string_views(out@) =~= string_views(v@).take(i as int),
        decreases v@.len() - i,
    {
        let ghost before = out@;
        out.push(v[i].clone());
        assert(string_views(out@) =~= string_views(before).push(v@[i as int]@));
        i += 1;
    }
    assert(string_views(v@).take(v@.len() as int) =~= string_views(v@));
    out
}

fn push_absent(v: &mut Vec<String>, x: &String)
    ensures
        string_views(final(v)@) == insert_absent(string_views(old(v)@), x@),
{
    if !strings_contain(v, x) {
        let ghost before = v@;
        v.push(x.clone());
        assert(string_views(v@) =~= string_views(before).push(x@));
    }
}

fn final_order_present(broker: &BrokerDetailV6, order_id: &String) -> (r: bool)
    ensures
        r == exists|i: int|
            0 <= i < broker.orders@.len() && #[trigger] final_order_named(
                broker.orders@[i],
                order_id@,
            ),
{
    let mut i: usize = 0;
    while i < broker.orders.len()
        invariant
            0 <= i <= broker.orders@.len(),
            forall|k: int|
                0 <= k < i ==> !#[trigger] final_order_named(broker.orders@[k], order_id@),
        decreases broker.orders@.len() - i,
    {
        if string_eq(&broker.orders[i].order_id, order_id) && broker.orders[i].status.is_terminal() {
            assert(final_order_named(broker.orders@[i as int], order_id@));
            return true;
        }
        i += 1;
    }
    false
}

impl DecisionPlanRows {
    /// Starts from the context's orders; `acknowledgements` when the result acknowledges any.
    pub fn new(broker: &BrokerDetailV6, acknowledgements: bool, mode: DeploymentModeV6) -> (r:
        Self)
        ensures
            r@ == plan_rows_initial(*broker, acknowledgements, mode),
    {
        let mut context_orders: Vec<String> = Vec::new();
        let mut i: usize = 0;
        while i < broker.orders.len()
            invariant
                0 <= i <= broker.orders@.len(),
                string_views(context_orders@) == active_order_ids(broker.orders@.take(i as int)),
            decreases broker.orders@.len() - i,
        {
            proof {
                assert(broker.orders@.take(i + 1).drop_last() =~= broker.orders@.take(i as int));
            }
            if !broker.orders[i].status.is_terminal() {
                push_absent(&mut context_orders, &broker.orders[i].order_id);
            }
            i += 1;
        }
        assert(broker.orders@.take(broker.orders@.len() as int) =~= broker.orders@);
        let r = DecisionPlanRows {
            rows: 0,
            broker_commands: 0,
            acknowledgements,
            mode,
            context_orders,
            own_places: Vec::new(),
        };
        assert(r@.own_places =~= Seq::<Seq<char>>::empty());
        r
    }

    /// The rows of the decision so far; zero while it has no Broker command.
    pub fn total(&self) -> (r: usize)
        requires
            self@.rows + DECISION_PLAN_ROWS + ACKNOWLEDGEMENT_PLAN_ROWS <= usize::MAX,
        ensures
            r == plan_rows_total(self@),
    {
        if self.broker_commands == 0 {
            return 0;
        }
        DECISION_PLAN_ROWS + self.rows + if self.acknowledgements {
            ACKNOWLEDGEMENT_PLAN_ROWS
        } else {
            0
        }
    }

    /// The count if `command` were added next.
    pub fn with(&self, command: &StrategyCommandV6, broker: &BrokerDetailV6) -> (r: Self)
        requires
            plan_rows_room(self@),
        ensures
            r@ == plan_rows_step(self@, *command, *broker),
    {
        let mut next = DecisionPlanRows {
            rows: self.rows,
            broker_commands: self.broker_commands,
            acknowledgements: self.acknowledgements,
            mode: self.mode,
            context_orders: copy_strings(&self.context_orders),
            own_places: copy_strings(&self.own_places),
        };
        assert(next@ == self@);
        next.add(command, broker);
        next
    }

    /// Adds the next command in issue order.
    pub fn add(&mut self, command: &StrategyCommandV6, broker: &BrokerDetailV6)
        requires
            plan_rows_room(old(self)@),
        ensures
            final(self)@ == plan_rows_step(old(self)@, *command, *broker),
    {
        let ghost before = self@;
        let rows = match command {
            StrategyCommandV6::PlaceOrder(order) => {
                push_absent(&mut self.own_places, &order.provider_client_id);
                let refused_market_sell = matches!(self.mode, DeploymentModeV6::Live) && matches!(
                    order.action,
                    OrderActionV6::Sell
                ) && matches!(order.order_type, OrderTypeV6::Market);
                PLACE_ORDER_PLAN_ROWS + if refused_market_sell {
                    REFUSED_COMMAND_PLAN_ROWS
                } else {
                    0
                }
            },
            StrategyCommandV6::CancelOrder { target: CancelTargetV6::Order { order_id, .. }, .. } => {
                if final_order_present(broker, order_id) {
                    REFUSED_COMMAND_PLAN_ROWS
                } else {
                    CANCEL_ORDER_PLAN_ROWS
                }
            },
            StrategyCommandV6::CancelOrder { .. } => CANCEL_ORDER_PLAN_ROWS,
            StrategyCommandV6::CancelAllOrders { .. } => {
                let context_orders = self.context_orders.len();
                let own_places = self.own_places.len();
                let rows = match self.mode {
                    DeploymentModeV6::Paper => CANCEL_ALL_ORDERS_PLAN_ROWS + context_orders
                        + own_places,
                    DeploymentModeV6::Live => {
                        let rows = CANCEL_ORDER_PLAN_ROWS * context_orders
                            + COLLAPSED_PLACE_PLAN_ROWS * own_places;
                        if rows < REFUSED_COMMAND_PLAN_ROWS {
                            REFUSED_COMMAND_PLAN_ROWS
                        } else {
                            rows
                        }
                    },
                };
                self.context_orders = Vec::new();
                self.own_places = Vec::new();
                assert(string_views(self.context_orders@) =~= Seq::<Seq<char>>::empty());
                assert(string_views(self.own_places@) =~= Seq::<Seq<char>>::empty());
                rows
            },
            StrategyCommandV6::ScheduleTimer { .. }
            | StrategyCommandV6::CancelTimer { .. }
            | StrategyCommandV6::Stop { .. } => {
                return;
            },
        };
        assert(rows == command_rows(before, *command, *broker));
        self.broker_commands = self.broker_commands + 1;
        self.rows = self.rows + rows;
        assert(self@ =~= plan_rows_step(before, *command, *broker));
    }
}

/// The context's open (non-terminal) orders.
pub fn open_orders(broker: &BrokerDetailV6) -> (r: usize)
    ensures
        r == open_order_count(broker.orders@),
        r <= broker.orders@.len(),
{
    let mut count: usize = 0;
    let mut i: usize = 0;
    while i < broker.orders.len()
        invariant
            0 <= i <= broker.orders@.len(),
            count == open_order_count(broker.orders@.take(i as int)),
            count <= i,
        decreases broker.orders@.len() - i,
    {
        proof {
            assert(broker.orders@.take(i + 1).drop_last() =~= broker.orders@.take(i as int));
        }
        if !broker.orders[i].status.is_terminal() {
            count += 1;
        }
        i += 1;
    }
    assert(broker.orders@.take(broker.orders@.len() as int) =~= broker.orders@);
    count
}

proof fn lemma_active_orders_len(s: Seq<BrokerOrderV6>)
    ensures
        active_order_ids(s).len() <= s.len(),
    decreases s.len(),
{
    if s.len() > 0 {
        lemma_active_orders_len(s.drop_last());
    }
}

/// The rows one decision can count are bounded by its commands and the context's orders.
proof fn lemma_plan_rows_bound(
    broker: BrokerDetailV6,
    acknowledgements: bool,
    mode: DeploymentModeV6,
    commands: Seq<StrategyCommandV6>,
    n: nat,
)
    requires
        n <= commands.len(),
    ensures
        ({
            let m = plan_rows_after(
                plan_rows_initial(broker, acknowledgements, mode),
                commands,
                broker,
                n,
            );
            let x = 3 * (broker.orders@.len() + commands.len()) + 12;
            &&& m.context_orders.len() <= broker.orders@.len()
            &&& m.own_places.len() <= n
            &&& 0 <= m.broker_commands <= n
            &&& 0 <= m.rows <= n * x
        }),
    decreases n,
{
    let x = 3 * (broker.orders@.len() + commands.len()) + 12;
    if n == 0 {
        lemma_active_orders_len(broker.orders@);
    } else {
        lemma_plan_rows_bound(broker, acknowledgements, mode, commands, (n - 1) as nat);
        let prev = plan_rows_after(
            plan_rows_initial(broker, acknowledgements, mode),
            commands,
            broker,
            (n - 1) as nat,
        );
        assert(command_rows(prev, commands[n - 1], broker) <= x);
        assert((n - 1) * x + x == n * x) by (nonlinear_arith);
    }
}

/// The account plan rows of a result's Broker commands (zero without one). The commands and
/// the context's orders are few enough that the count fits a machine word.
pub fn decision_plan_rows_v6(context: &DecisionContextV6, result: &DecisionResultV6) -> (r: usize)
    requires
        result.commands@.len() * (3 * (context.broker.orders@.len() + result.commands@.len())
            + 12) + 12 <= usize::MAX,
    ensures
        r == plan_rows_total(
            plan_rows_after(
                plan_rows_initial(
                    context.broker,
                    result.acknowledged_command_ids@.len() > 0,
                    context.deployment_mode,
                ),
                result.commands@,
                context.broker,
                result.commands@.len(),
            ),
        ),
{
    let acknowledgements = result.acknowledged_command_ids.len() > 0;
    let mut rows = DecisionPlanRows::new(&context.broker, acknowledgements, context.deployment_mode);
    let ghost start = rows@;
    let ghost x = 3 * (context.broker.orders@.len() + result.commands@.len()) + 12;
    let mut i: usize = 0;
    while i < result.commands.len()
        invariant
            0 <= i <= result.commands@.len(),
            start == plan_rows_initial(
                context.broker,
                acknowledgements,
                context.deployment_mode,
            ),
            x == 3 * (context.broker.orders@.len() + result.commands@.len()) + 12,
            result.commands@.len() * x + 12 <= usize::MAX,
            rows@ == plan_rows_after(start, result.commands@, context.broker, i as nat),
        decreases result.commands@.len() - i,
    {
        proof {
            lemma_plan_rows_bound(
                context.broker,
                acknowledgements,
                context.deployment_mode,
                result.commands@,
                i as nat,
            );
            assert((i + 1) * x <= result.commands@.len() * x) by (nonlinear_arith)
                requires
                    i + 1 <= result.commands@.len(),
                    x >= 0,
            ;
            assert(i * x + x == (i + 1) * x) by (nonlinear_arith);
        }
        rows.add(&result.commands[i], &context.broker);
        i += 1;
    }
    proof {
        lemma_plan_rows_bound(
            context.broker,
            acknowledgements,
            context.deployment_mode,
            result.commands@,
            result.commands@.len(),
        );
    }
    rows.total()
}

} // verus!
