//! Expressions over witnesses, and their evaluation against the values that
//! are known.

use crate::error::{OpcodeNotSolvable, OpcodeResolutionError};
use crate::field::{lemma_product_step, lemma_total_step, modulus, FieldValue};
use crate::witness::{witness_map_get, witness_values, Witness};
use acir::native_types::WitnessMap;
use vstd::prelude::*;

verus! {

/// A term `q_M * w_L * w_R`: a coefficient and the two witnesses it multiplies.
pub type MulTerm = (FieldValue, Witness, Witness);

/// A term `q_L * w`: a coefficient and the witness it scales.
pub type LinearTerm = (FieldValue, Witness);

/// A polynomial of degree two at most over the witnesses: the sum of its
/// multiplication terms, its linear terms and its constant `q_c`.
#[derive(Debug, PartialEq, Eq)]
pub struct Expression {
    pub mul_terms: Vec<MulTerm>,
    pub linear_combinations: Vec<LinearTerm>,
    pub q_c: FieldValue,
}

/// What an [`Expression`] holds, as sequences of terms.
pub struct Polynomial {
    pub mul_terms: Seq<MulTerm>,
    pub linear_combinations: Seq<LinearTerm>,
    pub q_c: FieldValue,
}

impl View for Expression {
    type V = Polynomial;

    open spec fn view(&self) -> Polynomial {
        Polynomial {
            mul_terms: self.mul_terms@,
            linear_combinations: self.linear_combinations@,
            q_c: self.q_c,
        }
    }
}

impl Polynomial {
    /// The polynomial that is the constant `q_c`.
    pub open spec fn constant(q_c: FieldValue) -> Polynomial {
        Polynomial { mul_terms: Seq::empty(), linear_combinations: Seq::empty(), q_c }
    }

    /// The polynomial that is the witness `witness`.
    pub open spec fn witness(witness: Witness) -> Polynomial {
        Polynomial {
            mul_terms: Seq::empty(),
            linear_combinations: seq![(FieldValue::from_nat(1), witness)],
            q_c: FieldValue::from_nat(0),
        }
    }

    /// Whether the polynomial has no term but its constant.
    pub open spec fn is_const(self) -> bool {
        self.mul_terms.len() == 0 && self.linear_combinations.len() == 0
    }

    /// The constant that the polynomial is, if it has no other term.
    pub open spec fn to_const(self) -> Option<FieldValue> {
        if self.is_const() {
            Some(self.q_c)
        } else {
            None
        }
    }

    /// The witness that the polynomial is, if it is one: a single linear term
    /// with the coefficient one, and the constant zero.
    pub open spec fn to_witness(self) -> Option<Witness> {
        if self.mul_terms.len() == 0 && self.linear_combinations.len() == 1
            && self.linear_combinations[0].0.value() == 1 && self.q_c.value() == 0 {
            Some(self.linear_combinations[0].1)
        } else {
            None
        }
    }

    /// A witness of the polynomial: that of its first linear term, or else the
    /// left one of its first multiplication term; none where it is constant.
    pub open spec fn any_witness(self) -> Option<Witness> {
        if self.linear_combinations.len() > 0 {
            Some(self.linear_combinations[0].1)
        } else if self.mul_terms.len() > 0 {
            Some(self.mul_terms[0].1)
        } else {
            None
        }
    }
}

/// The constant that a multiplication term comes to: the product of its
/// coefficient and the values of its witnesses where both are assigned, and
/// nothing otherwise.
pub open spec fn mul_term_value(term: MulTerm, values: Map<Witness, FieldValue>) -> nat {
    if values.contains_key(term.1) && values.contains_key(term.2) {
        term.0.value() * values[term.1].value() * values[term.2].value()
    } else {
        0
    }
}

/// The linear term that a multiplication term comes to where exactly one of
/// its witnesses is assigned: the other witness, scaled by the coefficient
/// times the value. A term that would have the coefficient zero is dropped.
pub open spec fn mul_term_linear(term: MulTerm, values: Map<Witness, FieldValue>) -> Option<LinearTerm> {
    if values.contains_key(term.1) && !values.contains_key(term.2) {
        let scaled = term.0.spec_times(values[term.1]);
        if scaled.value() != 0 {
            Some((scaled, term.2))
        } else {
            None
        }
    } else if !values.contains_key(term.1) && values.contains_key(term.2) {
        let scaled = term.0.spec_times(values[term.2]);
        if scaled.value() != 0 {
            Some((scaled, term.1))
        } else {
            None
        }
    } else {
        None
    }
}

/// A multiplication term stays where neither of its witnesses is assigned and
/// its coefficient is not zero.
pub open spec fn mul_term_residual(term: MulTerm, values: Map<Witness, FieldValue>) -> Option<MulTerm> {
    if !values.contains_key(term.1) && !values.contains_key(term.2) && term.0.value() != 0 {
        Some(term)
    } else {
        None
    }
}

/// The constant that a linear term comes to: its coefficient times the value
/// of its witness where that is assigned, and nothing otherwise.
pub open spec fn linear_term_value(term: LinearTerm, values: Map<Witness, FieldValue>) -> nat {
    if values.contains_key(term.1) {
        term.0.value() * values[term.1].value()
    } else {
        0
    }
}

/// A linear term stays where its witness is not assigned and its coefficient
/// is not zero.
pub open spec fn linear_term_residual(term: LinearTerm, values: Map<Witness, FieldValue>) -> Option<
    LinearTerm,
> {
    if !values.contains_key(term.1) && term.0.value() != 0 {
        Some(term)
    } else {
        None
    }
}

/// [`mul_term_linear`] under given values, as a function of the term.
pub open spec fn to_linear_under(values: Map<Witness, FieldValue>) -> spec_fn(MulTerm) -> Option<LinearTerm> {
    |term: MulTerm| mul_term_linear(term, values)
}

/// [`mul_term_residual`] under given values, as a function of the term.
pub open spec fn mul_residual_under(values: Map<Witness, FieldValue>) -> spec_fn(MulTerm) -> Option<MulTerm> {
    |term: MulTerm| mul_term_residual(term, values)
}

/// [`linear_term_residual`] under given values, as a function of the term.
pub open spec fn linear_residual_under(values: Map<Witness, FieldValue>) -> spec_fn(LinearTerm) -> Option<
    LinearTerm,
> {
    |term: LinearTerm| linear_term_residual(term, values)
}

/// The sum of the constants that the multiplication terms come to.
pub open spec fn mul_terms_total(terms: Seq<MulTerm>, values: Map<Witness, FieldValue>) -> nat
    decreases terms.len(),
{
    if terms.len() == 0 {
        0
    } else {
        mul_terms_total(terms.drop_last(), values) + mul_term_value(terms.last(), values)
    }
}

/// The sum of the constants that the linear terms come to.
pub open spec fn linear_terms_total(terms: Seq<LinearTerm>, values: Map<Witness, FieldValue>) -> nat
    decreases terms.len(),
{
    if terms.len() == 0 {
        0
    } else {
        linear_terms_total(terms.drop_last(), values) + linear_term_value(terms.last(), values)
    }
}

impl Polynomial {
    /// The polynomial with the known values put in for their witnesses.
    ///
    /// Each term whose witnesses are all assigned goes into the constant. A
    /// multiplication term with one assigned witness becomes a linear term in
    /// the other; these come first among the linear terms, then the linear
    /// terms that stay. Terms with the coefficient zero are dropped.
    pub open spec fn evaluate(self, values: Map<Witness, FieldValue>) -> Polynomial {
        Polynomial {
            mul_terms: self.mul_terms.filter_map(mul_residual_under(values)),
            linear_combinations: self.mul_terms.filter_map(to_linear_under(values))
                + self.linear_combinations.filter_map(linear_residual_under(values)),
            q_c: FieldValue::from_nat(
                (mul_terms_total(self.mul_terms, values) + linear_terms_total(
                    self.linear_combinations,
                    values,
                ) + self.q_c.value()) % modulus(),
            ),
        }
    }

    /// The value of the polynomial under the known values: its constant where
    /// evaluation leaves no other term, and else the error that names a
    /// witness that is left.
    pub open spec fn get_value(self, values: Map<Witness, FieldValue>) -> Result<
        FieldValue,
        OpcodeResolutionError,
    > {
        self.evaluate(values).known_value()
    }

    /// The constant that the polynomial is, or the error that names one of
    /// its witnesses as unassigned.
    pub open spec fn known_value(self) -> Result<FieldValue, OpcodeResolutionError> {
        match self.any_witness() {
            None => Ok(self.q_c),
            Some(witness) => Err(
                OpcodeResolutionError::OpcodeNotSolvable(OpcodeNotSolvable::MissingAssignment(witness.0)),
            ),
        }
    }
}

impl Default for Expression {
    /// The expression that is the constant zero.
    fn default() -> (expr: Expression)
        ensures
            expr@ == Polynomial::constant(FieldValue::from_nat(0)),
    {
        Expression { mul_terms: Vec::new(), linear_combinations: Vec::new(), q_c: FieldValue::zero() }
    }
}

impl Expression {
    /// The expression that is the constant `q_c`.
    pub fn from_field(q_c: FieldValue) -> (expr: Expression)
        ensures
            expr@ == Polynomial::constant(q_c),
    {
        Expression { mul_terms: Vec::new(), linear_combinations: Vec::new(), q_c }
    }

    /// The expression that is the witness `witness`.
    pub fn from_witness(witness: Witness) -> (expr: Expression)
        ensures
            expr@ == Polynomial::witness(witness),
    {
        let mut linear_combinations: Vec<LinearTerm> = Vec::new();
        linear_combinations.push((FieldValue::one(), witness));
        let expr = Expression { mul_terms: Vec::new(), linear_combinations, q_c: FieldValue::zero() };
        expr
    }

    /// The expression that is the constant one.
    pub fn one() -> (expr: Expression)
        ensures
            expr@ == Polynomial::constant(FieldValue::from_nat(1)),
    {
        Expression::from_field(FieldValue::one())
    }

    /// The expression that is the constant zero.
    pub fn zero() -> (expr: Expression)
        ensures
            expr@ == Polynomial::constant(FieldValue::from_nat(0)),
    {
        Expression::from_field(FieldValue::zero())
    }

    /// Whether the expression has no term but its constant.
    pub fn is_const(&self) -> (r: bool)
        ensures
            r == self@.is_const(),
    {
        self.mul_terms.len() == 0 && self.linear_combinations.len() == 0
    }

    /// The constant that the expression is, if it has no other term.
    pub fn to_const(&self) -> (r: Option<FieldValue>)
        ensures
            r == self@.to_const(),
    {
        if self.is_const() {
            Some(self.q_c)
        } else {
            None
        }
    }

    /// The witness that the expression is, if it is one: a single linear term
    /// with the coefficient one, and the constant zero.
    pub fn to_witness(&self) -> (r: Option<Witness>)
        ensures
            r == self@.to_witness(),
    {
        if self.mul_terms.len() == 0 && self.linear_combinations.len() == 1 {
            let (coefficient, variable) = self.linear_combinations[0];
            if coefficient.is_one() && self.q_c.is_zero() {
                return Some(variable);
            }
        }
        None
    }

    /// The constant that the expression is, or the error that names one of
    /// its witnesses as unassigned.
    pub fn known_value(&self) -> (r: Result<FieldValue, OpcodeResolutionError>)
        ensures
            r == self@.known_value(),
    {
        match self.to_const() {
            Some(value) => Ok(value),
            None => Err(
                OpcodeResolutionError::OpcodeNotSolvable(
                    OpcodeNotSolvable::MissingAssignment(self.any_witness().unwrap().0),
                ),
            ),
        }
    }

    /// A witness of the expression: that of its first linear term, or else the
    /// left one of its first multiplication term; none where it is constant.
    pub fn any_witness(&self) -> (r: Option<Witness>)
        ensures
            r == self@.any_witness(),
    {
        if self.linear_combinations.len() > 0 {
            Some(self.linear_combinations[0].1)
        } else if self.mul_terms.len() > 0 {
            Some(self.mul_terms[0].1)
        } else {
            None
        }
    }
}

/// Evaluation leaves no assigned witness among the linear terms: a witness
/// that stays in an evaluated polynomial holds no value.
pub proof fn lemma_evaluated_linear_terms_are_unassigned(
    polynomial: Polynomial,
    values: Map<Witness, FieldValue>,
    i: int,
)
    requires
        0 <= i < polynomial.evaluate(values).linear_combinations.len(),
    ensures
        !values.contains_key(polynomial.evaluate(values).linear_combinations[i].1),
{
    let from_mul_terms = polynomial.mul_terms.filter_map(to_linear_under(values));
    let from_linear_terms = polynomial.linear_combinations.filter_map(linear_residual_under(values));
    let term = polynomial.evaluate(values).linear_combinations[i];
    if i < from_mul_terms.len() {
        polynomial.mul_terms.lemma_filter_map_contains(to_linear_under(values), term);
    } else {
        polynomial.linear_combinations.lemma_filter_map_contains(linear_residual_under(values), term);
    }
}

/// The witness that an evaluated polynomial is, if it is one, holds no value.
pub proof fn lemma_evaluated_witness_is_unassigned(polynomial: Polynomial, values: Map<Witness, FieldValue>)
    ensures
        polynomial.evaluate(values).to_witness() matches Some(witness) ==> !values.contains_key(witness),
{
    if polynomial.evaluate(values).to_witness() is Some {
        lemma_evaluated_linear_terms_are_unassigned(polynomial, values, 0);
    }
}

/// Puts the known values into `expr`: see [`Polynomial::evaluate`].
pub fn evaluate(expr: &Expression, initial_witness: &WitnessMap) -> (result: Expression)
    ensures
        result@ == expr@.evaluate(witness_values(*initial_witness)),
{
    let ghost values = witness_values(*initial_witness);
    let mut mul_terms: Vec<MulTerm> = Vec::new();
    let mut linear_combinations: Vec<LinearTerm> = Vec::new();
    let mut q_c = FieldValue::zero();
    let mut i: usize = 0;
    while i < expr.mul_terms.len()
        invariant
            i <= expr.mul_terms.len(),
            values == witness_values(*initial_witness),
            mul_terms@ == expr.mul_terms@.take(i as int).filter_map(mul_residual_under(values)),
            linear_combinations@ == expr.mul_terms@.take(i as int).filter_map(to_linear_under(values)),
            q_c.value() == mul_terms_total(expr.mul_terms@.take(i as int), values) % modulus(),
        decreases expr.mul_terms.len() - i,
    {
        let (coefficient, left, right) = expr.mul_terms[i];
        proof {
            let term = expr.mul_terms@[i as int];
            let next = expr.mul_terms@.take(i + 1);
            assert(next.drop_last() =~= expr.mul_terms@.take(i as int));
            lemma_total_step(mul_terms_total(expr.mul_terms@.take(i as int), values), mul_term_value(term, values));
        }
        match (witness_map_get(initial_witness, left), witness_map_get(initial_witness, right)) {
            (None, None) => {
                if !coefficient.is_zero() {
                    mul_terms.push((coefficient, left, right));
                }
            },
            (Some(left_value), Some(right_value)) => {
                proof {
                    lemma_product_step(coefficient.value(), left_value.value(), right_value.value());
                }
                q_c = q_c.plus(coefficient.times(left_value).times(right_value));
            },
            (None, Some(right_value)) => {
                let scaled = coefficient.times(right_value);
                if !scaled.is_zero() {
                    linear_combinations.push((scaled, left));
                }
            },
            (Some(left_value), None) => {
                let scaled = coefficient.times(left_value);
                if !scaled.is_zero() {
                    linear_combinations.push((scaled, right));
                }
            },
        }
        i += 1;
    }
    assert(expr.mul_terms@.take(i as int) =~= expr.mul_terms@);
    let ghost from_mul_terms = linear_combinations@;
    let ghost mul_total = mul_terms_total(expr.mul_terms@, values);
    let mut j: usize = 0;
    while j < expr.linear_combinations.len()
        invariant
            j <= expr.linear_combinations.len(),
            values == witness_values(*initial_witness),
            linear_combinations@ == from_mul_terms + expr.linear_combinations@.take(j as int).filter_map(
                linear_residual_under(values),
            ),
            q_c.value() == (mul_total + linear_terms_total(expr.linear_combinations@.take(j as int), values))
                % modulus(),
        decreases expr.linear_combinations.len() - j,
    {
        let (coefficient, witness) = expr.linear_combinations[j];
        proof {
            let term = expr.linear_combinations@[j as int];
            let next = expr.linear_combinations@.take(j + 1);
            assert(next.drop_last() =~= expr.linear_combinations@.take(j as int));
            lemma_total_step(
                mul_total + linear_terms_total(expr.linear_combinations@.take(j as int), values),
                linear_term_value(term, values),
            );
        }
        match witness_map_get(initial_witness, witness) {
            Some(value) => {
                q_c = q_c.plus(coefficient.times(value));
            },
            None => {
                if !coefficient.is_zero() {
                    linear_combinations.push((coefficient, witness));
                }
            },
        }
        j += 1;
    }
    assert(expr.linear_combinations@.take(j as int) =~= expr.linear_combinations@);
    proof {
        lemma_total_step(mul_total + linear_terms_total(expr.linear_combinations@, values), expr.q_c.value());
    }
    q_c = q_c.plus(expr.q_c);
    Expression { mul_terms, linear_combinations, q_c }
}

/// The value of `expr` under the known values: see [`Polynomial::get_value`].
pub fn get_value(expr: &Expression, initial_witness: &WitnessMap) -> (r: Result<
    FieldValue,
    OpcodeResolutionError,
>)
    ensures
        r == expr@.get_value(witness_values(*initial_witness)),
{
    evaluate(expr, initial_witness).known_value()
}

} // verus!
