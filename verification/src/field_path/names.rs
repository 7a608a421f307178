//! The type-level strings that this crate's own accessor impls use,
//! each a marker type standing for one field or variant name.
#![allow(non_camel_case_types)]
use super::to_usize::{
    decimal_name, decimal_value, digit_value, is_decimal, lemma_decimal_name_value, IndexName,
    ToUsize,
};
use super::{TStr, TStrName};
use vstd::prelude::*;

verus! {

/// The value of a one-digit numeral.
pub proof fn lemma_decimal_one_digit(c: char)
    ensures
        decimal_value(seq![c]) == digit_value(c),
{
    assert(seq![c].drop_last() =~= Seq::<char>::empty());
    assert(decimal_value(Seq::<char>::empty()) == 0);
    assert(seq![c].last() == c);
}

/// The value of a two-digit numeral.
pub proof fn lemma_decimal_two_digits(c: char, d: char)
    ensures
        decimal_value(seq![c, d]) == digit_value(c) * 10 + digit_value(d),
{
    assert(seq![c, d].drop_last() =~= seq![c]);
    assert(seq![c, d].last() == d);
    lemma_decimal_one_digit(c);
}

/// The name `0`, of the field at index 0.
#[derive(Debug, Default, Copy, Clone)]
pub struct Str_0;

impl TStrName for Str_0 {
    open spec fn name_spec() -> Seq<char> {
        "0"@
    }

    fn name() -> (r: &'static str) {
        "0"
    }
}

impl IndexName for Str_0 {
    proof fn lemma_is_index() {
        reveal_strlit("0");
        assert("0"@ =~= seq!['0']);
        lemma_decimal_one_digit('0');
    }
}

/// The name `1`, of the field at index 1.
#[derive(Debug, Default, Copy, Clone)]
pub struct Str_1;

impl TStrName for Str_1 {
    open spec fn name_spec() -> Seq<char> {
        "1"@
    }

    fn name() -> (r: &'static str) {
        "1"
    }
}

impl IndexName for Str_1 {
    proof fn lemma_is_index() {
        reveal_strlit("1");
        assert("1"@ =~= seq!['1']);
        lemma_decimal_one_digit('1');
    }
}

/// The name `2`, of the field at index 2.
#[derive(Debug, Default, Copy, Clone)]
pub struct Str_2;

impl TStrName for Str_2 {
    open spec fn name_spec() -> Seq<char> {
        "2"@
    }

    fn name() -> (r: &'static str) {
        "2"
    }
}

impl IndexName for Str_2 {
    proof fn lemma_is_index() {
        reveal_strlit("2");
        assert("2"@ =~= seq!['2']);
        lemma_decimal_one_digit('2');
    }
}

/// The name `3`, of the field at index 3.
#[derive(Debug, Default, Copy, Clone)]
pub struct Str_3;

impl TStrName for Str_3 {
    open spec fn name_spec() -> Seq<char> {
        "3"@
    }

    fn name() -> (r: &'static str) {
        "3"
    }
}

impl IndexName for Str_3 {
    proof fn lemma_is_index() {
        reveal_strlit("3");
        assert("3"@ =~= seq!['3']);
        lemma_decimal_one_digit('3');
    }
}

/// The name `4`, of the field at index 4.
#[derive(Debug, Default, Copy, Clone)]
pub struct Str_4;

impl TStrName for Str_4 {
    open spec fn name_spec() -> Seq<char> {
        "4"@
    }

    fn name() -> (r: &'static str) {
        "4"
    }
}

impl IndexName for Str_4 {
    proof fn lemma_is_index() {
        reveal_strlit("4");
        assert("4"@ =~= seq!['4']);
        lemma_decimal_one_digit('4');
    }
}

/// The name `5`, of the field at index 5.
#[derive(Debug, Default, Copy, Clone)]
pub struct Str_5;

impl TStrName for Str_5 {
    open spec fn name_spec() -> Seq<char> {
        "5"@
    }

    fn name() -> (r: &'static str) {
        "5"
    }
}

impl IndexName for Str_5 {
    proof fn lemma_is_index() {
        reveal_strlit("5");
        assert("5"@ =~= seq!['5']);
        lemma_decimal_one_digit('5');
    }
}

/// The name `6`, of the field at index 6.
#[derive(Debug, Default, Copy, Clone)]
pub struct Str_6;

impl TStrName for Str_6 {
    open spec fn name_spec() -> Seq<char> {
        "6"@
    }

    fn name() -> (r: &'static str) {
        "6"
    }
}

impl IndexName for Str_6 {
    proof fn lemma_is_index() {
        reveal_strlit("6");
        assert("6"@ =~= seq!['6']);
        lemma_decimal_one_digit('6');
    }
}

/// The name `7`, of the field at index 7.
#[derive(Debug, Default, Copy, Clone)]
pub struct Str_7;

impl TStrName for Str_7 {
    open spec fn name_spec() -> Seq<char> {
        "7"@
    }

    fn name() -> (r: &'static str) {
        "7"
    }
}

impl IndexName for Str_7 {
    proof fn lemma_is_index() {
        reveal_strlit("7");
        assert("7"@ =~= seq!['7']);
        lemma_decimal_one_digit('7');
    }
}

/// The name `8`, of the field at index 8.
#[derive(Debug, Default, Copy, Clone)]
pub struct Str_8;

impl TStrName for Str_8 {
    open spec fn name_spec() -> Seq<char> {
        "8"@
    }

    fn name() -> (r: &'static str) {
        "8"
    }
}

impl IndexName for Str_8 {
    proof fn lemma_is_index() {
        reveal_strlit("8");
        assert("8"@ =~= seq!['8']);
        lemma_decimal_one_digit('8');
    }
}

/// The name `9`, of the field at index 9.
#[derive(Debug, Default, Copy, Clone)]
pub struct Str_9;

impl TStrName for Str_9 {
    open spec fn name_spec() -> Seq<char> {
        "9"@
    }

    fn name() -> (r: &'static str) {
        "9"
    }
}

impl IndexName for Str_9 {
    proof fn lemma_is_index() {
        reveal_strlit("9");
        assert("9"@ =~= seq!['9']);
        lemma_decimal_one_digit('9');
    }
}

/// The name `10`, of the field at index 10.
#[derive(Debug, Default, Copy, Clone)]
pub struct Str_10;

impl TStrName for Str_10 {
    open spec fn name_spec() -> Seq<char> {
        "10"@
    }

    fn name() -> (r: &'static str) {
        "10"
    }
}

impl IndexName for Str_10 {
    proof fn lemma_is_index() {
        reveal_strlit("10");
        assert("10"@ =~= seq!['1', '0']);
        lemma_decimal_two_digits('1', '0');
    }
}

/// The name `11`, of the field at index 11.
#[derive(Debug, Default, Copy, Clone)]
pub struct Str_11;

impl TStrName for Str_11 {
    open spec fn name_spec() -> Seq<char> {
        "11"@
    }

    fn name() -> (r: &'static str) {
        "11"
    }
}

impl IndexName for Str_11 {
    proof fn lemma_is_index() {
        reveal_strlit("11");
        assert("11"@ =~= seq!['1', '1']);
        lemma_decimal_two_digits('1', '1');
    }
}

/// The name `12`, of the field at index 12.
#[derive(Debug, Default, Copy, Clone)]
pub struct Str_12;

impl TStrName for Str_12 {
    open spec fn name_spec() -> Seq<char> {
        "12"@
    }

    fn name() -> (r: &'static str) {
        "12"
    }
}

impl IndexName for Str_12 {
    proof fn lemma_is_index() {
        reveal_strlit("12");
        assert("12"@ =~= seq!['1', '2']);
        lemma_decimal_two_digits('1', '2');
    }
}

/// The name `13`, of the field at index 13.
#[derive(Debug, Default, Copy, Clone)]
pub struct Str_13;

impl TStrName for Str_13 {
    open spec fn name_spec() -> Seq<char> {
        "13"@
    }

    fn name() -> (r: &'static str) {
        "13"
    }
}

impl IndexName for Str_13 {
    proof fn lemma_is_index() {
        reveal_strlit("13");
        assert("13"@ =~= seq!['1', '3']);
        lemma_decimal_two_digits('1', '3');
    }
}

/// The name `14`, of the field at index 14.
#[derive(Debug, Default, Copy, Clone)]
pub struct Str_14;

impl TStrName for Str_14 {
    open spec fn name_spec() -> Seq<char> {
        "14"@
    }

    fn name() -> (r: &'static str) {
        "14"
    }
}

impl IndexName for Str_14 {
    proof fn lemma_is_index() {
        reveal_strlit("14");
        assert("14"@ =~= seq!['1', '4']);
        lemma_decimal_two_digits('1', '4');
    }
}

/// The name `15`, of the field at index 15.
#[derive(Debug, Default, Copy, Clone)]
pub struct Str_15;

impl TStrName for Str_15 {
    open spec fn name_spec() -> Seq<char> {
        "15"@
    }

    fn name() -> (r: &'static str) {
        "15"
    }
}

impl IndexName for Str_15 {
    proof fn lemma_is_index() {
        reveal_strlit("15");
        assert("15"@ =~= seq!['1', '5']);
        lemma_decimal_two_digits('1', '5');
    }
}

/// The name `16`, of the field at index 16.
#[derive(Debug, Default, Copy, Clone)]
pub struct Str_16;

impl TStrName for Str_16 {
    open spec fn name_spec() -> Seq<char> {
        "16"@
    }

    fn name() -> (r: &'static str) {
        "16"
    }
}

impl IndexName for Str_16 {
    proof fn lemma_is_index() {
        reveal_strlit("16");
        assert("16"@ =~= seq!['1', '6']);
        lemma_decimal_two_digits('1', '6');
    }
}

/// The name `17`, of the field at index 17.
#[derive(Debug, Default, Copy, Clone)]
pub struct Str_17;

impl TStrName for Str_17 {
    open spec fn name_spec() -> Seq<char> {
        "17"@
    }

    fn name() -> (r: &'static str) {
        "17"
    }
}

impl IndexName for Str_17 {
    proof fn lemma_is_index() {
        reveal_strlit("17");
        assert("17"@ =~= seq!['1', '7']);
        lemma_decimal_two_digits('1', '7');
    }
}

/// The name `18`, of the field at index 18.
#[derive(Debug, Default, Copy, Clone)]
pub struct Str_18;

impl TStrName for Str_18 {
    open spec fn name_spec() -> Seq<char> {
        "18"@
    }

    fn name() -> (r: &'static str) {
        "18"
    }
}

impl IndexName for Str_18 {
    proof fn lemma_is_index() {
        reveal_strlit("18");
        assert("18"@ =~= seq!['1', '8']);
        lemma_decimal_two_digits('1', '8');
    }
}

/// The name `19`, of the field at index 19.
#[derive(Debug, Default, Copy, Clone)]
pub struct Str_19;

impl TStrName for Str_19 {
    open spec fn name_spec() -> Seq<char> {
        "19"@
    }

    fn name() -> (r: &'static str) {
        "19"
    }
}

impl IndexName for Str_19 {
    proof fn lemma_is_index() {
        reveal_strlit("19");
        assert("19"@ =~= seq!['1', '9']);
        lemma_decimal_two_digits('1', '9');
    }
}

/// The name `20`, of the field at index 20.
#[derive(Debug, Default, Copy, Clone)]
pub struct Str_20;

impl TStrName for Str_20 {
    open spec fn name_spec() -> Seq<char> {
        "20"@
    }

    fn name() -> (r: &'static str) {
        "20"
    }
}

impl IndexName for Str_20 {
    proof fn lemma_is_index() {
        reveal_strlit("20");
        assert("20"@ =~= seq!['2', '0']);
        lemma_decimal_two_digits('2', '0');
    }
}

/// The name `21`, of the field at index 21.
#[derive(Debug, Default, Copy, Clone)]
pub struct Str_21;

impl TStrName for Str_21 {
    open spec fn name_spec() -> Seq<char> {
        "21"@
    }

    fn name() -> (r: &'static str) {
        "21"
    }
}

impl IndexName for Str_21 {
    proof fn lemma_is_index() {
        reveal_strlit("21");
        assert("21"@ =~= seq!['2', '1']);
        lemma_decimal_two_digits('2', '1');
    }
}

/// The name `22`, of the field at index 22.
#[derive(Debug, Default, Copy, Clone)]
pub struct Str_22;

impl TStrName for Str_22 {
    open spec fn name_spec() -> Seq<char> {
        "22"@
    }

    fn name() -> (r: &'static str) {
        "22"
    }
}

impl IndexName for Str_22 {
    proof fn lemma_is_index() {
        reveal_strlit("22");
        assert("22"@ =~= seq!['2', '2']);
        lemma_decimal_two_digits('2', '2');
    }
}

/// The name `23`, of the field at index 23.
#[derive(Debug, Default, Copy, Clone)]
pub struct Str_23;

impl TStrName for Str_23 {
    open spec fn name_spec() -> Seq<char> {
        "23"@
    }

    fn name() -> (r: &'static str) {
        "23"
    }
}

impl IndexName for Str_23 {
    proof fn lemma_is_index() {
        reveal_strlit("23");
        assert("23"@ =~= seq!['2', '3']);
        lemma_decimal_two_digits('2', '3');
    }
}

/// The name `24`, of the field at index 24.
#[derive(Debug, Default, Copy, Clone)]
pub struct Str_24;

impl TStrName for Str_24 {
    open spec fn name_spec() -> Seq<char> {
        "24"@
    }

    fn name() -> (r: &'static str) {
        "24"
    }
}

impl IndexName for Str_24 {
    proof fn lemma_is_index() {
        reveal_strlit("24");
        assert("24"@ =~= seq!['2', '4']);
        lemma_decimal_two_digits('2', '4');
    }
}

/// The name `25`, of the field at index 25.
#[derive(Debug, Default, Copy, Clone)]
pub struct Str_25;

impl TStrName for Str_25 {
    open spec fn name_spec() -> Seq<char> {
        "25"@
    }

    fn name() -> (r: &'static str) {
        "25"
    }
}

impl IndexName for Str_25 {
    proof fn lemma_is_index() {
        reveal_strlit("25");
        assert("25"@ =~= seq!['2', '5']);
        lemma_decimal_two_digits('2', '5');
    }
}

/// The name `26`, of the field at index 26.
#[derive(Debug, Default, Copy, Clone)]
pub struct Str_26;

impl TStrName for Str_26 {
    open spec fn name_spec() -> Seq<char> {
        "26"@
    }

    fn name() -> (r: &'static str) {
        "26"
    }
}

impl IndexName for Str_26 {
    proof fn lemma_is_index() {
        reveal_strlit("26");
        assert("26"@ =~= seq!['2', '6']);
        lemma_decimal_two_digits('2', '6');
    }
}

/// The name `27`, of the field at index 27.
#[derive(Debug, Default, Copy, Clone)]
pub struct Str_27;

impl TStrName for Str_27 {
    open spec fn name_spec() -> Seq<char> {
        "27"@
    }

    fn name() -> (r: &'static str) {
        "27"
    }
}

impl IndexName for Str_27 {
    proof fn lemma_is_index() {
        reveal_strlit("27");
        assert("27"@ =~= seq!['2', '7']);
        lemma_decimal_two_digits('2', '7');
    }
}

/// The name `28`, of the field at index 28.
#[derive(Debug, Default, Copy, Clone)]
pub struct Str_28;

impl TStrName for Str_28 {
    open spec fn name_spec() -> Seq<char> {
        "28"@
    }

    fn name() -> (r: &'static str) {
        "28"
    }
}

impl IndexName for Str_28 {
    proof fn lemma_is_index() {
        reveal_strlit("28");
        assert("28"@ =~= seq!['2', '8']);
        lemma_decimal_two_digits('2', '8');
    }
}

/// The name `29`, of the field at index 29.
#[derive(Debug, Default, Copy, Clone)]
pub struct Str_29;

impl TStrName for Str_29 {
    open spec fn name_spec() -> Seq<char> {
        "29"@
    }

    fn name() -> (r: &'static str) {
        "29"
    }
}

impl IndexName for Str_29 {
    proof fn lemma_is_index() {
        reveal_strlit("29");
        assert("29"@ =~= seq!['2', '9']);
        lemma_decimal_two_digits('2', '9');
    }
}

/// The name `30`, of the field at index 30.
#[derive(Debug, Default, Copy, Clone)]
pub struct Str_30;

impl TStrName for Str_30 {
    open spec fn name_spec() -> Seq<char> {
        "30"@
    }

    fn name() -> (r: &'static str) {
        "30"
    }
}

impl IndexName for Str_30 {
    proof fn lemma_is_index() {
        reveal_strlit("30");
        assert("30"@ =~= seq!['3', '0']);
        lemma_decimal_two_digits('3', '0');
    }
}

/// The name `31`, of the field at index 31.
#[derive(Debug, Default, Copy, Clone)]
pub struct Str_31;

impl TStrName for Str_31 {
    open spec fn name_spec() -> Seq<char> {
        "31"@
    }

    fn name() -> (r: &'static str) {
        "31"
    }
}

impl IndexName for Str_31 {
    proof fn lemma_is_index() {
        reveal_strlit("31");
        assert("31"@ =~= seq!['3', '1']);
        lemma_decimal_two_digits('3', '1');
    }
}

/// The name `32`, of the field at index 32.
#[derive(Debug, Default, Copy, Clone)]
pub struct Str_32;

impl TStrName for Str_32 {
    open spec fn name_spec() -> Seq<char> {
        "32"@
    }

    fn name() -> (r: &'static str) {
        "32"
    }
}

impl IndexName for Str_32 {
    proof fn lemma_is_index() {
        reveal_strlit("32");
        assert("32"@ =~= seq!['3', '2']);
        lemma_decimal_two_digits('3', '2');
    }
}

/// The name `33`, of the field at index 33.
#[derive(Debug, Default, Copy, Clone)]
pub struct Str_33;

impl TStrName for Str_33 {
    open spec fn name_spec() -> Seq<char> {
        "33"@
    }

    fn name() -> (r: &'static str) {
        "33"
    }
}

impl IndexName for Str_33 {
    proof fn lemma_is_index() {
        reveal_strlit("33");
        assert("33"@ =~= seq!['3', '3']);
        lemma_decimal_two_digits('3', '3');
    }
}

/// The name `34`, of the field at index 34.
#[derive(Debug, Default, Copy, Clone)]
pub struct Str_34;

impl TStrName for Str_34 {
    open spec fn name_spec() -> Seq<char> {
        "34"@
    }

    fn name() -> (r: &'static str) {
        "34"
    }
}

impl IndexName for Str_34 {
    proof fn lemma_is_index() {
        reveal_strlit("34");
        assert("34"@ =~= seq!['3', '4']);
        lemma_decimal_two_digits('3', '4');
    }
}

/// The name `35`, of the field at index 35.
#[derive(Debug, Default, Copy, Clone)]
pub struct Str_35;

impl TStrName for Str_35 {
    open spec fn name_spec() -> Seq<char> {
        "35"@
    }

    fn name() -> (r: &'static str) {
        "35"
    }
}

impl IndexName for Str_35 {
    proof fn lemma_is_index() {
        reveal_strlit("35");
        assert("35"@ =~= seq!['3', '5']);
        lemma_decimal_two_digits('3', '5');
    }
}

/// The name `36`, of the field at index 36.
#[derive(Debug, Default, Copy, Clone)]
pub struct Str_36;

impl TStrName for Str_36 {
    open spec fn name_spec() -> Seq<char> {
        "36"@
    }

    fn name() -> (r: &'static str) {
        "36"
    }
}

impl IndexName for Str_36 {
    proof fn lemma_is_index() {
        reveal_strlit("36");
        assert("36"@ =~= seq!['3', '6']);
        lemma_decimal_two_digits('3', '6');
    }
}

/// The name `37`, of the field at index 37.
#[derive(Debug, Default, Copy, Clone)]
pub struct Str_37;

impl TStrName for Str_37 {
    open spec fn name_spec() -> Seq<char> {
        "37"@
    }

    fn name() -> (r: &'static str) {
        "37"
    }
}

impl IndexName for Str_37 {
    proof fn lemma_is_index() {
        reveal_strlit("37");
        assert("37"@ =~= seq!['3', '7']);
        lemma_decimal_two_digits('3', '7');
    }
}

/// The name `38`, of the field at index 38.
#[derive(Debug, Default, Copy, Clone)]
pub struct Str_38;

impl TStrName for Str_38 {
    open spec fn name_spec() -> Seq<char> {
        "38"@
    }

    fn name() -> (r: &'static str) {
        "38"
    }
}

impl IndexName for Str_38 {
    proof fn lemma_is_index() {
        reveal_strlit("38");
        assert("38"@ =~= seq!['3', '8']);
        lemma_decimal_two_digits('3', '8');
    }
}

/// The name `39`, of the field at index 39.
#[derive(Debug, Default, Copy, Clone)]
pub struct Str_39;

impl TStrName for Str_39 {
    open spec fn name_spec() -> Seq<char> {
        "39"@
    }

    fn name() -> (r: &'static str) {
        "39"
    }
}

impl IndexName for Str_39 {
    proof fn lemma_is_index() {
        reveal_strlit("39");
        assert("39"@ =~= seq!['3', '9']);
        lemma_decimal_two_digits('3', '9');
    }
}

/// The name `40`, of the field at index 40.
#[derive(Debug, Default, Copy, Clone)]
pub struct Str_40;

impl TStrName for Str_40 {
    open spec fn name_spec() -> Seq<char> {
        "40"@
    }

    fn name() -> (r: &'static str) {
        "40"
    }
}

impl IndexName for Str_40 {
    proof fn lemma_is_index() {
        reveal_strlit("40");
        assert("40"@ =~= seq!['4', '0']);
        lemma_decimal_two_digits('4', '0');
    }
}

/// The name `41`, of the field at index 41.
#[derive(Debug, Default, Copy, Clone)]
pub struct Str_41;

impl TStrName for Str_41 {
    open spec fn name_spec() -> Seq<char> {
        "41"@
    }

    fn name() -> (r: &'static str) {
        "41"
    }
}

impl IndexName for Str_41 {
    proof fn lemma_is_index() {
        reveal_strlit("41");
        assert("41"@ =~= seq!['4', '1']);
        lemma_decimal_two_digits('4', '1');
    }
}

/// The name `42`, of the field at index 42.
#[derive(Debug, Default, Copy, Clone)]
pub struct Str_42;

impl TStrName for Str_42 {
    open spec fn name_spec() -> Seq<char> {
        "42"@
    }

    fn name() -> (r: &'static str) {
        "42"
    }
}

impl IndexName for Str_42 {
    proof fn lemma_is_index() {
        reveal_strlit("42");
        assert("42"@ =~= seq!['4', '2']);
        lemma_decimal_two_digits('4', '2');
    }
}

/// The name `43`, of the field at index 43.
#[derive(Debug, Default, Copy, Clone)]
pub struct Str_43;

impl TStrName for Str_43 {
    open spec fn name_spec() -> Seq<char> {
        "43"@
    }

    fn name() -> (r: &'static str) {
        "43"
    }
}

impl IndexName for Str_43 {
    proof fn lemma_is_index() {
        reveal_strlit("43");
        assert("43"@ =~= seq!['4', '3']);
        lemma_decimal_two_digits('4', '3');
    }
}

/// The name `44`, of the field at index 44.
#[derive(Debug, Default, Copy, Clone)]
pub struct Str_44;

impl TStrName for Str_44 {
    open spec fn name_spec() -> Seq<char> {
        "44"@
    }

    fn name() -> (r: &'static str) {
        "44"
    }
}

impl IndexName for Str_44 {
    proof fn lemma_is_index() {
        reveal_strlit("44");
        assert("44"@ =~= seq!['4', '4']);
        lemma_decimal_two_digits('4', '4');
    }
}

/// The name `45`, of the field at index 45.
#[derive(Debug, Default, Copy, Clone)]
pub struct Str_45;

impl TStrName for Str_45 {
    open spec fn name_spec() -> Seq<char> {
        "45"@
    }

    fn name() -> (r: &'static str) {
        "45"
    }
}

impl IndexName for Str_45 {
    proof fn lemma_is_index() {
        reveal_strlit("45");
        assert("45"@ =~= seq!['4', '5']);
        lemma_decimal_two_digits('4', '5');
    }
}

/// The name `46`, of the field at index 46.
#[derive(Debug, Default, Copy, Clone)]
pub struct Str_46;

impl TStrName for Str_46 {
    open spec fn name_spec() -> Seq<char> {
        "46"@
    }

    fn name() -> (r: &'static str) {
        "46"
    }
}

impl IndexName for Str_46 {
    proof fn lemma_is_index() {
        reveal_strlit("46");
        assert("46"@ =~= seq!['4', '6']);
        lemma_decimal_two_digits('4', '6');
    }
}

/// The name `47`, of the field at index 47.
#[derive(Debug, Default, Copy, Clone)]
pub struct Str_47;

impl TStrName for Str_47 {
    open spec fn name_spec() -> Seq<char> {
        "47"@
    }

    fn name() -> (r: &'static str) {
        "47"
    }
}

impl IndexName for Str_47 {
    proof fn lemma_is_index() {
        reveal_strlit("47");
        assert("47"@ =~= seq!['4', '7']);
        lemma_decimal_two_digits('4', '7');
    }
}

/// The name `48`, of the field at index 48.
#[derive(Debug, Default, Copy, Clone)]
pub struct Str_48;

impl TStrName for Str_48 {
    open spec fn name_spec() -> Seq<char> {
        "48"@
    }

    fn name() -> (r: &'static str) {
        "48"
    }
}

impl IndexName for Str_48 {
    proof fn lemma_is_index() {
        reveal_strlit("48");
        assert("48"@ =~= seq!['4', '8']);
        lemma_decimal_two_digits('4', '8');
    }
}

/// The name `49`, of the field at index 49.
#[derive(Debug, Default, Copy, Clone)]
pub struct Str_49;

impl TStrName for Str_49 {
    open spec fn name_spec() -> Seq<char> {
        "49"@
    }

    fn name() -> (r: &'static str) {
        "49"
    }
}

impl IndexName for Str_49 {
    proof fn lemma_is_index() {
        reveal_strlit("49");
        assert("49"@ =~= seq!['4', '9']);
        lemma_decimal_two_digits('4', '9');
    }
}

/// The name `50`, of the field at index 50.
#[derive(Debug, Default, Copy, Clone)]
pub struct Str_50;

impl TStrName for Str_50 {
    open spec fn name_spec() -> Seq<char> {
        "50"@
    }

    fn name() -> (r: &'static str) {
        "50"
    }
}

impl IndexName for Str_50 {
    proof fn lemma_is_index() {
        reveal_strlit("50");
        assert("50"@ =~= seq!['5', '0']);
        lemma_decimal_two_digits('5', '0');
    }
}

/// The name `51`, of the field at index 51.
#[derive(Debug, Default, Copy, Clone)]
pub struct Str_51;

impl TStrName for Str_51 {
    open spec fn name_spec() -> Seq<char> {
        "51"@
    }

    fn name() -> (r: &'static str) {
        "51"
    }
}

impl IndexName for Str_51 {
    proof fn lemma_is_index() {
        reveal_strlit("51");
        assert("51"@ =~= seq!['5', '1']);
        lemma_decimal_two_digits('5', '1');
    }
}

/// The name `52`, of the field at index 52.
#[derive(Debug, Default, Copy, Clone)]
pub struct Str_52;

impl TStrName for Str_52 {
    open spec fn name_spec() -> Seq<char> {
        "52"@
    }

    fn name() -> (r: &'static str) {
        "52"
    }
}

impl IndexName for Str_52 {
    proof fn lemma_is_index() {
        reveal_strlit("52");
        assert("52"@ =~= seq!['5', '2']);
        lemma_decimal_two_digits('5', '2');
    }
}

/// The name `53`, of the field at index 53.
#[derive(Debug, Default, Copy, Clone)]
pub struct Str_53;

impl TStrName for Str_53 {
    open spec fn name_spec() -> Seq<char> {
        "53"@
    }

    fn name() -> (r: &'static str) {
        "53"
    }
}

impl IndexName for Str_53 {
    proof fn lemma_is_index() {
        reveal_strlit("53");
        assert("53"@ =~= seq!['5', '3']);
        lemma_decimal_two_digits('5', '3');
    }
}

/// The name `54`, of the field at index 54.
#[derive(Debug, Default, Copy, Clone)]
pub struct Str_54;

impl TStrName for Str_54 {
    open spec fn name_spec() -> Seq<char> {
        "54"@
    }

    fn name() -> (r: &'static str) {
        "54"
    }
}

impl IndexName for Str_54 {
    proof fn lemma_is_index() {
        reveal_strlit("54");
        assert("54"@ =~= seq!['5', '4']);
        lemma_decimal_two_digits('5', '4');
    }
}

/// The name `55`, of the field at index 55.
#[derive(Debug, Default, Copy, Clone)]
pub struct Str_55;

impl TStrName for Str_55 {
    open spec fn name_spec() -> Seq<char> {
        "55"@
    }

    fn name() -> (r: &'static str) {
        "55"
    }
}

impl IndexName for Str_55 {
    proof fn lemma_is_index() {
        reveal_strlit("55");
        assert("55"@ =~= seq!['5', '5']);
        lemma_decimal_two_digits('5', '5');
    }
}

/// The name `56`, of the field at index 56.
#[derive(Debug, Default, Copy, Clone)]
pub struct Str_56;

impl TStrName for Str_56 {
    open spec fn name_spec() -> Seq<char> {
        "56"@
    }

    fn name() -> (r: &'static str) {
        "56"
    }
}

impl IndexName for Str_56 {
    proof fn lemma_is_index() {
        reveal_strlit("56");
        assert("56"@ =~= seq!['5', '6']);
        lemma_decimal_two_digits('5', '6');
    }
}

/// The name `57`, of the field at index 57.
#[derive(Debug, Default, Copy, Clone)]
pub struct Str_57;

impl TStrName for Str_57 {
    open spec fn name_spec() -> Seq<char> {
        "57"@
    }

    fn name() -> (r: &'static str) {
        "57"
    }
}

impl IndexName for Str_57 {
    proof fn lemma_is_index() {
        reveal_strlit("57");
        assert("57"@ =~= seq!['5', '7']);
        lemma_decimal_two_digits('5', '7');
    }
}

/// The name `58`, of the field at index 58.
#[derive(Debug, Default, Copy, Clone)]
pub struct Str_58;

impl TStrName for Str_58 {
    open spec fn name_spec() -> Seq<char> {
        "58"@
    }

    fn name() -> (r: &'static str) {
        "58"
    }
}

impl IndexName for Str_58 {
    proof fn lemma_is_index() {
        reveal_strlit("58");
        assert("58"@ =~= seq!['5', '8']);
        lemma_decimal_two_digits('5', '8');
    }
}

/// The name `59`, of the field at index 59.
#[derive(Debug, Default, Copy, Clone)]
pub struct Str_59;

impl TStrName for Str_59 {
    open spec fn name_spec() -> Seq<char> {
        "59"@
    }

    fn name() -> (r: &'static str) {
        "59"
    }
}

impl IndexName for Str_59 {
    proof fn lemma_is_index() {
        reveal_strlit("59");
        assert("59"@ =~= seq!['5', '9']);
        lemma_decimal_two_digits('5', '9');
    }
}

/// The name `60`, of the field at index 60.
#[derive(Debug, Default, Copy, Clone)]
pub struct Str_60;

impl TStrName for Str_60 {
    open spec fn name_spec() -> Seq<char> {
        "60"@
    }

    fn name() -> (r: &'static str) {
        "60"
    }
}

impl IndexName for Str_60 {
    proof fn lemma_is_index() {
        reveal_strlit("60");
        assert("60"@ =~= seq!['6', '0']);
        lemma_decimal_two_digits('6', '0');
    }
}

/// The name `61`, of the field at index 61.
#[derive(Debug, Default, Copy, Clone)]
pub struct Str_61;

impl TStrName for Str_61 {
    open spec fn name_spec() -> Seq<char> {
        "61"@
    }

    fn name() -> (r: &'static str) {
        "61"
    }
}

impl IndexName for Str_61 {
    proof fn lemma_is_index() {
        reveal_strlit("61");
        assert("61"@ =~= seq!['6', '1']);
        lemma_decimal_two_digits('6', '1');
    }
}

/// The name `62`, of the field at index 62.
#[derive(Debug, Default, Copy, Clone)]
pub struct Str_62;

impl TStrName for Str_62 {
    open spec fn name_spec() -> Seq<char> {
        "62"@
    }

    fn name() -> (r: &'static str) {
        "62"
    }
}

impl IndexName for Str_62 {
    proof fn lemma_is_index() {
        reveal_strlit("62");
        assert("62"@ =~= seq!['6', '2']);
        lemma_decimal_two_digits('6', '2');
    }
}

/// The name `63`, of the field at index 63.
#[derive(Debug, Default, Copy, Clone)]
pub struct Str_63;

impl TStrName for Str_63 {
    open spec fn name_spec() -> Seq<char> {
        "63"@
    }

    fn name() -> (r: &'static str) {
        "63"
    }
}

impl IndexName for Str_63 {
    proof fn lemma_is_index() {
        reveal_strlit("63");
        assert("63"@ =~= seq!['6', '3']);
        lemma_decimal_two_digits('6', '3');
    }
}

/// The name `99`, of the field at index 99.
#[derive(Debug, Default, Copy, Clone)]
pub struct Str_99;

impl TStrName for Str_99 {
    open spec fn name_spec() -> Seq<char> {
        "99"@
    }

    fn name() -> (r: &'static str) {
        "99"
    }
}

impl IndexName for Str_99 {
    proof fn lemma_is_index() {
        reveal_strlit("99");
        assert("99"@ =~= seq!['9', '9']);
        lemma_decimal_two_digits('9', '9');
    }
}

/// The name `foo`.
#[derive(Debug, Default, Copy, Clone)]
pub struct Str_foo;

impl TStrName for Str_foo {
    open spec fn name_spec() -> Seq<char> {
        "foo"@
    }

    fn name() -> (r: &'static str) {
        "foo"
    }
}

/// The name `bar`.
#[derive(Debug, Default, Copy, Clone)]
pub struct Str_bar;

impl TStrName for Str_bar {
    open spec fn name_spec() -> Seq<char> {
        "bar"@
    }

    fn name() -> (r: &'static str) {
        "bar"
    }
}

/// The name `baz`.
#[derive(Debug, Default, Copy, Clone)]
pub struct Str_baz;

impl TStrName for Str_baz {
    open spec fn name_spec() -> Seq<char> {
        "baz"@
    }

    fn name() -> (r: &'static str) {
        "baz"
    }
}

/// The name `a`.
#[derive(Debug, Default, Copy, Clone)]
pub struct Str_a;

impl TStrName for Str_a {
    open spec fn name_spec() -> Seq<char> {
        "a"@
    }

    fn name() -> (r: &'static str) {
        "a"
    }
}

/// The name `b`.
#[derive(Debug, Default, Copy, Clone)]
pub struct Str_b;

impl TStrName for Str_b {
    open spec fn name_spec() -> Seq<char> {
        "b"@
    }

    fn name() -> (r: &'static str) {
        "b"
    }
}

/// The name `Nope`.
#[derive(Debug, Default, Copy, Clone)]
pub struct Str_Nope;

impl TStrName for Str_Nope {
    open spec fn name_spec() -> Seq<char> {
        "Nope"@
    }

    fn name() -> (r: &'static str) {
        "Nope"
    }
}

/// The name `Bar`.
#[derive(Debug, Default, Copy, Clone)]
pub struct Str_Bar;

impl TStrName for Str_Bar {
    open spec fn name_spec() -> Seq<char> {
        "Bar"@
    }

    fn name() -> (r: &'static str) {
        "Bar"
    }
}

/// The name `Boom`.
#[derive(Debug, Default, Copy, Clone)]
pub struct Str_Boom;

impl TStrName for Str_Boom {
    open spec fn name_spec() -> Seq<char> {
        "Boom"@
    }

    fn name() -> (r: &'static str) {
        "Boom"
    }
}

/// The name `Exploded`.
#[derive(Debug, Default, Copy, Clone)]
pub struct Str_Exploded;

impl TStrName for Str_Exploded {
    open spec fn name_spec() -> Seq<char> {
        "Exploded"@
    }

    fn name() -> (r: &'static str) {
        "Exploded"
    }
}

/// The name `Limbs`.
#[derive(Debug, Default, Copy, Clone)]
pub struct Str_Limbs;

impl TStrName for Str_Limbs {
    open spec fn name_spec() -> Seq<char> {
        "Limbs"@
    }

    fn name() -> (r: &'static str) {
        "Limbs"
    }
}

/// The name `legs`.
#[derive(Debug, Default, Copy, Clone)]
pub struct Str_legs;

impl TStrName for Str_legs {
    open spec fn name_spec() -> Seq<char> {
        "legs"@
    }

    fn name() -> (r: &'static str) {
        "legs"
    }
}

/// The name `hands`.
#[derive(Debug, Default, Copy, Clone)]
pub struct Str_hands;

impl TStrName for Str_hands {
    open spec fn name_spec() -> Seq<char> {
        "hands"@
    }

    fn name() -> (r: &'static str) {
        "hands"
    }
}

/// The name `noodles`.
#[derive(Debug, Default, Copy, Clone)]
pub struct Str_noodles;

impl TStrName for Str_noodles {
    open spec fn name_spec() -> Seq<char> {
        "noodles"@
    }

    fn name() -> (r: &'static str) {
        "noodles"
    }
}

/// The name `Foo`.
#[derive(Debug, Default, Copy, Clone)]
pub struct Str_Foo;

impl TStrName for Str_Foo {
    open spec fn name_spec() -> Seq<char> {
        "Foo"@
    }

    fn name() -> (r: &'static str) {
        "Foo"
    }
}

/// The name `U32`.
#[derive(Debug, Default, Copy, Clone)]
pub struct Str_U32;

impl TStrName for Str_U32 {
    open spec fn name_spec() -> Seq<char> {
        "U32"@
    }

    fn name() -> (r: &'static str) {
        "U32"
    }
}

/// The name `U64`.
#[derive(Debug, Default, Copy, Clone)]
pub struct Str_U64;

impl TStrName for Str_U64 {
    open spec fn name_spec() -> Seq<char> {
        "U64"@
    }

    fn name() -> (r: &'static str) {
        "U64"
    }
}

/// The name `Some`.
#[derive(Debug, Default, Copy, Clone)]
pub struct Str_Some;

impl TStrName for Str_Some {
    open spec fn name_spec() -> Seq<char> {
        "Some"@
    }

    fn name() -> (r: &'static str) {
        "Some"
    }
}

/// The name `None`.
#[derive(Debug, Default, Copy, Clone)]
pub struct Str_None;

impl TStrName for Str_None {
    open spec fn name_spec() -> Seq<char> {
        "None"@
    }

    fn name() -> (r: &'static str) {
        "None"
    }
}

/// The name `Ok`.
#[derive(Debug, Default, Copy, Clone)]
pub struct Str_Ok;

impl TStrName for Str_Ok {
    open spec fn name_spec() -> Seq<char> {
        "Ok"@
    }

    fn name() -> (r: &'static str) {
        "Ok"
    }
}

/// The name `Err`.
#[derive(Debug, Default, Copy, Clone)]
pub struct Str_Err;

impl TStrName for Str_Err {
    open spec fn name_spec() -> Seq<char> {
        "Err"@
    }

    fn name() -> (r: &'static str) {
        "Err"
    }
}

/// The name `FileNotFound`.
#[derive(Debug, Default, Copy, Clone)]
pub struct Str_FileNotFound;

impl TStrName for Str_FileNotFound {
    open spec fn name_spec() -> Seq<char> {
        "FileNotFound"@
    }

    fn name() -> (r: &'static str) {
        "FileNotFound"
    }
}

/// The name `Warn`.
#[derive(Debug, Default, Copy, Clone)]
pub struct Str_Warn;

impl TStrName for Str_Warn {
    open spec fn name_spec() -> Seq<char> {
        "Warn"@
    }

    fn name() -> (r: &'static str) {
        "Warn"
    }
}

/// The name `Ziemniak`.
#[derive(Debug, Default, Copy, Clone)]
pub struct Str_Ziemniak;

impl TStrName for Str_Ziemniak {
    open spec fn name_spec() -> Seq<char> {
        "Ziemniak"@
    }

    fn name() -> (r: &'static str) {
        "Ziemniak"
    }
}

/// The name `start`.
#[derive(Debug, Default, Copy, Clone)]
pub struct Str_start;

impl TStrName for Str_start {
    open spec fn name_spec() -> Seq<char> {
        "start"@
    }

    fn name() -> (r: &'static str) {
        "start"
    }
}

/// The name `end`.
#[derive(Debug, Default, Copy, Clone)]
pub struct Str_end;

impl TStrName for Str_end {
    open spec fn name_spec() -> Seq<char> {
        "end"@
    }

    fn name() -> (r: &'static str) {
        "end"
    }
}

/// The name `Baz`.
#[derive(Debug, Default, Copy, Clone)]
pub struct Str_Baz;

impl TStrName for Str_Baz {
    open spec fn name_spec() -> Seq<char> {
        "Baz"@
    }

    fn name() -> (r: &'static str) {
        "Baz"
    }
}

/// The name `Qux`.
#[derive(Debug, Default, Copy, Clone)]
pub struct Str_Qux;

impl TStrName for Str_Qux {
    open spec fn name_spec() -> Seq<char> {
        "Qux"@
    }

    fn name() -> (r: &'static str) {
        "Qux"
    }
}

/// The name `foom`.
#[derive(Debug, Default, Copy, Clone)]
pub struct Str_foom;

impl TStrName for Str_foom {
    open spec fn name_spec() -> Seq<char> {
        "foom"@
    }

    fn name() -> (r: &'static str) {
        "foom"
    }
}

/// The name `uh`.
#[derive(Debug, Default, Copy, Clone)]
pub struct Str_uh;

impl TStrName for Str_uh {
    open spec fn name_spec() -> Seq<char> {
        "uh"@
    }

    fn name() -> (r: &'static str) {
        "uh"
    }
}

/// The name `what`.
#[derive(Debug, Default, Copy, Clone)]
pub struct Str_what;

impl TStrName for Str_what {
    open spec fn name_spec() -> Seq<char> {
        "what"@
    }

    fn name() -> (r: &'static str) {
        "what"
    }
}

/// The name `centymetry objętości`.
#[derive(Debug, Default, Copy, Clone)]
pub struct Str_centymetry_objetosci;

impl TStrName for Str_centymetry_objetosci {
    open spec fn name_spec() -> Seq<char> {
        "centymetry objętości"@
    }

    fn name() -> (r: &'static str) {
        "centymetry objętości"
    }
}

/// The name `生菜`.
#[derive(Debug, Default, Copy, Clone)]
pub struct Str_Shengcai;

impl TStrName for Str_Shengcai {
    open spec fn name_spec() -> Seq<char> {
        "生菜"@
    }

    fn name() -> (r: &'static str) {
        "生菜"
    }
}

/// The name `树叶`.
#[derive(Debug, Default, Copy, Clone)]
pub struct Str_Shuye;

impl TStrName for Str_Shuye {
    open spec fn name_spec() -> Seq<char> {
        "树叶"@
    }

    fn name() -> (r: &'static str) {
        "树叶"
    }
}

/// Each numeric name is the decimal numeral of its index, without leading
/// zeros, and denotes that index.
pub proof fn lemma_numeric_names()
    ensures
        Str_0::name_spec() == decimal_name(0),
        <TStr<Str_0> as ToUsize>::usize_spec() == 0,
        Str_1::name_spec() == decimal_name(1),
        <TStr<Str_1> as ToUsize>::usize_spec() == 1,
        Str_2::name_spec() == decimal_name(2),
        <TStr<Str_2> as ToUsize>::usize_spec() == 2,
        Str_3::name_spec() == decimal_name(3),
        <TStr<Str_3> as ToUsize>::usize_spec() == 3,
        Str_4::name_spec() == decimal_name(4),
        <TStr<Str_4> as ToUsize>::usize_spec() == 4,
        Str_5::name_spec() == decimal_name(5),
        <TStr<Str_5> as ToUsize>::usize_spec() == 5,
        Str_6::name_spec() == decimal_name(6),
        <TStr<Str_6> as ToUsize>::usize_spec() == 6,
        Str_7::name_spec() == decimal_name(7),
        <TStr<Str_7> as ToUsize>::usize_spec() == 7,
        Str_8::name_spec() == decimal_name(8),
        <TStr<Str_8> as ToUsize>::usize_spec() == 8,
        Str_9::name_spec() == decimal_name(9),
        <TStr<Str_9> as ToUsize>::usize_spec() == 9,
        Str_10::name_spec() == decimal_name(10),
        <TStr<Str_10> as ToUsize>::usize_spec() == 10,
        Str_11::name_spec() == decimal_name(11),
        <TStr<Str_11> as ToUsize>::usize_spec() == 11,
        Str_12::name_spec() == decimal_name(12),
        <TStr<Str_12> as ToUsize>::usize_spec() == 12,
        Str_13::name_spec() == decimal_name(13),
        <TStr<Str_13> as ToUsize>::usize_spec() == 13,
        Str_14::name_spec() == decimal_name(14),
        <TStr<Str_14> as ToUsize>::usize_spec() == 14,
        Str_15::name_spec() == decimal_name(15),
        <TStr<Str_15> as ToUsize>::usize_spec() == 15,
        Str_16::name_spec() == decimal_name(16),
        <TStr<Str_16> as ToUsize>::usize_spec() == 16,
        Str_17::name_spec() == decimal_name(17),
        <TStr<Str_17> as ToUsize>::usize_spec() == 17,
        Str_18::name_spec() == decimal_name(18),
        <TStr<Str_18> as ToUsize>::usize_spec() == 18,
        Str_19::name_spec() == decimal_name(19),
        <TStr<Str_19> as ToUsize>::usize_spec() == 19,
        Str_20::name_spec() == decimal_name(20),
        <TStr<Str_20> as ToUsize>::usize_spec() == 20,
        Str_21::name_spec() == decimal_name(21),
        <TStr<Str_21> as ToUsize>::usize_spec() == 21,
        Str_22::name_spec() == decimal_name(22),
        <TStr<Str_22> as ToUsize>::usize_spec() == 22,
        Str_23::name_spec() == decimal_name(23),
        <TStr<Str_23> as ToUsize>::usize_spec() == 23,
        Str_24::name_spec() == decimal_name(24),
        <TStr<Str_24> as ToUsize>::usize_spec() == 24,
        Str_25::name_spec() == decimal_name(25),
        <TStr<Str_25> as ToUsize>::usize_spec() == 25,
        Str_26::name_spec() == decimal_name(26),
        <TStr<Str_26> as ToUsize>::usize_spec() == 26,
        Str_27::name_spec() == decimal_name(27),
        <TStr<Str_27> as ToUsize>::usize_spec() == 27,
        Str_28::name_spec() == decimal_name(28),
        <TStr<Str_28> as ToUsize>::usize_spec() == 28,
        Str_29::name_spec() == decimal_name(29),
        <TStr<Str_29> as ToUsize>::usize_spec() == 29,
        Str_30::name_spec() == decimal_name(30),
        <TStr<Str_30> as ToUsize>::usize_spec() == 30,
        Str_31::name_spec() == decimal_name(31),
        <TStr<Str_31> as ToUsize>::usize_spec() == 31,
        Str_32::name_spec() == decimal_name(32),
        <TStr<Str_32> as ToUsize>::usize_spec() == 32,
        Str_33::name_spec() == decimal_name(33),
        <TStr<Str_33> as ToUsize>::usize_spec() == 33,
        Str_34::name_spec() == decimal_name(34),
        <TStr<Str_34> as ToUsize>::usize_spec() == 34,
        Str_35::name_spec() == decimal_name(35),
        <TStr<Str_35> as ToUsize>::usize_spec() == 35,
        Str_36::name_spec() == decimal_name(36),
        <TStr<Str_36> as ToUsize>::usize_spec() == 36,
        Str_37::name_spec() == decimal_name(37),
        <TStr<Str_37> as ToUsize>::usize_spec() == 37,
        Str_38::name_spec() == decimal_name(38),
        <TStr<Str_38> as ToUsize>::usize_spec() == 38,
        Str_39::name_spec() == decimal_name(39),
        <TStr<Str_39> as ToUsize>::usize_spec() == 39,
        Str_40::name_spec() == decimal_name(40),
        <TStr<Str_40> as ToUsize>::usize_spec() == 40,
        Str_41::name_spec() == decimal_name(41),
        <TStr<Str_41> as ToUsize>::usize_spec() == 41,
        Str_42::name_spec() == decimal_name(42),
        <TStr<Str_42> as ToUsize>::usize_spec() == 42,
        Str_43::name_spec() == decimal_name(43),
        <TStr<Str_43> as ToUsize>::usize_spec() == 43,
        Str_44::name_spec() == decimal_name(44),
        <TStr<Str_44> as ToUsize>::usize_spec() == 44,
        Str_45::name_spec() == decimal_name(45),
        <TStr<Str_45> as ToUsize>::usize_spec() == 45,
        Str_46::name_spec() == decimal_name(46),
        <TStr<Str_46> as ToUsize>::usize_spec() == 46,
        Str_47::name_spec() == decimal_name(47),
        <TStr<Str_47> as ToUsize>::usize_spec() == 47,
        Str_48::name_spec() == decimal_name(48),
        <TStr<Str_48> as ToUsize>::usize_spec() == 48,
        Str_49::name_spec() == decimal_name(49),
        <TStr<Str_49> as ToUsize>::usize_spec() == 49,
        Str_50::name_spec() == decimal_name(50),
        <TStr<Str_50> as ToUsize>::usize_spec() == 50,
        Str_51::name_spec() == decimal_name(51),
        <TStr<Str_51> as ToUsize>::usize_spec() == 51,
        Str_52::name_spec() == decimal_name(52),
        <TStr<Str_52> as ToUsize>::usize_spec() == 52,
        Str_53::name_spec() == decimal_name(53),
        <TStr<Str_53> as ToUsize>::usize_spec() == 53,
        Str_54::name_spec() == decimal_name(54),
        <TStr<Str_54> as ToUsize>::usize_spec() == 54,
        Str_55::name_spec() == decimal_name(55),
        <TStr<Str_55> as ToUsize>::usize_spec() == 55,
        Str_56::name_spec() == decimal_name(56),
        <TStr<Str_56> as ToUsize>::usize_spec() == 56,
        Str_57::name_spec() == decimal_name(57),
        <TStr<Str_57> as ToUsize>::usize_spec() == 57,
        Str_58::name_spec() == decimal_name(58),
        <TStr<Str_58> as ToUsize>::usize_spec() == 58,
        Str_59::name_spec() == decimal_name(59),
        <TStr<Str_59> as ToUsize>::usize_spec() == 59,
        Str_60::name_spec() == decimal_name(60),
        <TStr<Str_60> as ToUsize>::usize_spec() == 60,
        Str_61::name_spec() == decimal_name(61),
        <TStr<Str_61> as ToUsize>::usize_spec() == 61,
        Str_62::name_spec() == decimal_name(62),
        <TStr<Str_62> as ToUsize>::usize_spec() == 62,
        Str_63::name_spec() == decimal_name(63),
        <TStr<Str_63> as ToUsize>::usize_spec() == 63,
        Str_99::name_spec() == decimal_name(99),
        <TStr<Str_99> as ToUsize>::usize_spec() == 99,
{
    reveal_strlit("0");
    assert(Str_0::name_spec() =~= decimal_name(0));
    lemma_decimal_name_value(0);
    reveal_strlit("1");
    assert(Str_1::name_spec() =~= decimal_name(1));
    lemma_decimal_name_value(1);
    reveal_strlit("2");
    assert(Str_2::name_spec() =~= decimal_name(2));
    lemma_decimal_name_value(2);
    reveal_strlit("3");
    assert(Str_3::name_spec() =~= decimal_name(3));
    lemma_decimal_name_value(3);
    reveal_strlit("4");
    assert(Str_4::name_spec() =~= decimal_name(4));
    lemma_decimal_name_value(4);
    reveal_strlit("5");
    assert(Str_5::name_spec() =~= decimal_name(5));
    lemma_decimal_name_value(5);
    reveal_strlit("6");
    assert(Str_6::name_spec() =~= decimal_name(6));
    lemma_decimal_name_value(6);
    reveal_strlit("7");
    assert(Str_7::name_spec() =~= decimal_name(7));
    lemma_decimal_name_value(7);
    reveal_strlit("8");
    assert(Str_8::name_spec() =~= decimal_name(8));
    lemma_decimal_name_value(8);
    reveal_strlit("9");
    assert(Str_9::name_spec() =~= decimal_name(9));
    lemma_decimal_name_value(9);
    reveal_strlit("10");
    assert(Str_10::name_spec() =~= decimal_name(10)) by {
        reveal_with_fuel(decimal_name, 2);
    }
    lemma_decimal_name_value(10);
    reveal_strlit("11");
    assert(Str_11::name_spec() =~= decimal_name(11)) by {
        reveal_with_fuel(decimal_name, 2);
    }
    lemma_decimal_name_value(11);
    reveal_strlit("12");
    assert(Str_12::name_spec() =~= decimal_name(12)) by {
        reveal_with_fuel(decimal_name, 2);
    }
    lemma_decimal_name_value(12);
    reveal_strlit("13");
    assert(Str_13::name_spec() =~= decimal_name(13)) by {
        reveal_with_fuel(decimal_name, 2);
    }
    lemma_decimal_name_value(13);
    reveal_strlit("14");
    assert(Str_14::name_spec() =~= decimal_name(14)) by {
        reveal_with_fuel(decimal_name, 2);
    }
    lemma_decimal_name_value(14);
    reveal_strlit("15");
    assert(Str_15::name_spec() =~= decimal_name(15)) by {
        reveal_with_fuel(decimal_name, 2);
    }
    lemma_decimal_name_value(15);
    reveal_strlit("16");
    assert(Str_16::name_spec() =~= decimal_name(16)) by {
        reveal_with_fuel(decimal_name, 2);
    }
    lemma_decimal_name_value(16);
    reveal_strlit("17");
    assert(Str_17::name_spec() =~= decimal_name(17)) by {
        reveal_with_fuel(decimal_name, 2);
    }
    lemma_decimal_name_value(17);
    reveal_strlit("18");
    assert(Str_18::name_spec() =~= decimal_name(18)) by {
        reveal_with_fuel(decimal_name, 2);
    }
    lemma_decimal_name_value(18);
    reveal_strlit("19");
    assert(Str_19::name_spec() =~= decimal_name(19)) by {
        reveal_with_fuel(decimal_name, 2);
    }
    lemma_decimal_name_value(19);
    reveal_strlit("20");
    assert(Str_20::name_spec() =~= decimal_name(20)) by {
        reveal_with_fuel(decimal_name, 2);
    }
    lemma_decimal_name_value(20);
    reveal_strlit("21");
    assert(Str_21::name_spec() =~= decimal_name(21)) by {
        reveal_with_fuel(decimal_name, 2);
    }
    lemma_decimal_name_value(21);
    reveal_strlit("22");
    assert(Str_22::name_spec() =~= decimal_name(22)) by {
        reveal_with_fuel(decimal_name, 2);
    }
    lemma_decimal_name_value(22);
    reveal_strlit("23");
    assert(Str_23::name_spec() =~= decimal_name(23)) by {
        reveal_with_fuel(decimal_name, 2);
    }
    lemma_decimal_name_value(23);
    reveal_strlit("24");
    assert(Str_24::name_spec() =~= decimal_name(24)) by {
        reveal_with_fuel(decimal_name, 2);
    }
    lemma_decimal_name_value(24);
    reveal_strlit("25");
    assert(Str_25::name_spec() =~= decimal_name(25)) by {
        reveal_with_fuel(decimal_name, 2);
    }
    lemma_decimal_name_value(25);
    reveal_strlit("26");
    assert(Str_26::name_spec() =~= decimal_name(26)) by {
        reveal_with_fuel(decimal_name, 2);
    }
    lemma_decimal_name_value(26);
    reveal_strlit("27");
    assert(Str_27::name_spec() =~= decimal_name(27)) by {
        reveal_with_fuel(decimal_name, 2);
    }
    lemma_decimal_name_value(27);
    reveal_strlit("28");
    assert(Str_28::name_spec() =~= decimal_name(28)) by {
        reveal_with_fuel(decimal_name, 2);
    }
    lemma_decimal_name_value(28);
    reveal_strlit("29");
    assert(Str_29::name_spec() =~= decimal_name(29)) by {
        reveal_with_fuel(decimal_name, 2);
    }
    lemma_decimal_name_value(29);
    reveal_strlit("30");
    assert(Str_30::name_spec() =~= decimal_name(30)) by {
        reveal_with_fuel(decimal_name, 2);
    }
    lemma_decimal_name_value(30);
    reveal_strlit("31");
    assert(Str_31::name_spec() =~= decimal_name(31)) by {
        reveal_with_fuel(decimal_name, 2);
    }
    lemma_decimal_name_value(31);
    reveal_strlit("32");
    assert(Str_32::name_spec() =~= decimal_name(32)) by {
        reveal_with_fuel(decimal_name, 2);
    }
    lemma_decimal_name_value(32);
    reveal_strlit("33");
    assert(Str_33::name_spec() =~= decimal_name(33)) by {
        reveal_with_fuel(decimal_name, 2);
    }
    lemma_decimal_name_value(33);
    reveal_strlit("34");
    assert(Str_34::name_spec() =~= decimal_name(34)) by {
        reveal_with_fuel(decimal_name, 2);
    }
    lemma_decimal_name_value(34);
    reveal_strlit("35");
    assert(Str_35::name_spec() =~= decimal_name(35)) by {
        reveal_with_fuel(decimal_name, 2);
    }
    lemma_decimal_name_value(35);
    reveal_strlit("36");
    assert(Str_36::name_spec() =~= decimal_name(36)) by {
        reveal_with_fuel(decimal_name, 2);
    }
    lemma_decimal_name_value(36);
    reveal_strlit("37");
    assert(Str_37::name_spec() =~= decimal_name(37)) by {
        reveal_with_fuel(decimal_name, 2);
    }
    lemma_decimal_name_value(37);
    reveal_strlit("38");
    assert(Str_38::name_spec() =~= decimal_name(38)) by {
        reveal_with_fuel(decimal_name, 2);
    }
    lemma_decimal_name_value(38);
    reveal_strlit("39");
    assert(Str_39::name_spec() =~= decimal_name(39)) by {
        reveal_with_fuel(decimal_name, 2);
    }
    lemma_decimal_name_value(39);
    reveal_strlit("40");
    assert(Str_40::name_spec() =~= decimal_name(40)) by {
        reveal_with_fuel(decimal_name, 2);
    }
    lemma_decimal_name_value(40);
    reveal_strlit("41");
    assert(Str_41::name_spec() =~= decimal_name(41)) by {
        reveal_with_fuel(decimal_name, 2);
    }
    lemma_decimal_name_value(41);
    reveal_strlit("42");
    assert(Str_42::name_spec() =~= decimal_name(42)) by {
        reveal_with_fuel(decimal_name, 2);
    }
    lemma_decimal_name_value(42);
    reveal_strlit("43");
    assert(Str_43::name_spec() =~= decimal_name(43)) by {
        reveal_with_fuel(decimal_name, 2);
    }
    lemma_decimal_name_value(43);
    reveal_strlit("44");
    assert(Str_44::name_spec() =~= decimal_name(44)) by {
        reveal_with_fuel(decimal_name, 2);
    }
    lemma_decimal_name_value(44);
    reveal_strlit("45");
    assert(Str_45::name_spec() =~= decimal_name(45)) by {
        reveal_with_fuel(decimal_name, 2);
    }
    lemma_decimal_name_value(45);
    reveal_strlit("46");
    assert(Str_46::name_spec() =~= decimal_name(46)) by {
        reveal_with_fuel(decimal_name, 2);
    }
    lemma_decimal_name_value(46);
    reveal_strlit("47");
    assert(Str_47::name_spec() =~= decimal_name(47)) by {
        reveal_with_fuel(decimal_name, 2);
    }
    lemma_decimal_name_value(47);
    reveal_strlit("48");
    assert(Str_48::name_spec() =~= decimal_name(48)) by {
        reveal_with_fuel(decimal_name, 2);
    }
    lemma_decimal_name_value(48);
    reveal_strlit("49");
    assert(Str_49::name_spec() =~= decimal_name(49)) by {
        reveal_with_fuel(decimal_name, 2);
    }
    lemma_decimal_name_value(49);
    reveal_strlit("50");
    assert(Str_50::name_spec() =~= decimal_name(50)) by {
        reveal_with_fuel(decimal_name, 2);
    }
    lemma_decimal_name_value(50);
    reveal_strlit("51");
    assert(Str_51::name_spec() =~= decimal_name(51)) by {
        reveal_with_fuel(decimal_name, 2);
    }
    lemma_decimal_name_value(51);
    reveal_strlit("52");
    assert(Str_52::name_spec() =~= decimal_name(52)) by {
        reveal_with_fuel(decimal_name, 2);
    }
    lemma_decimal_name_value(52);
    reveal_strlit("53");
    assert(Str_53::name_spec() =~= decimal_name(53)) by {
        reveal_with_fuel(decimal_name, 2);
    }
    lemma_decimal_name_value(53);
    reveal_strlit("54");
    assert(Str_54::name_spec() =~= decimal_name(54)) by {
        reveal_with_fuel(decimal_name, 2);
    }
    lemma_decimal_name_value(54);
    reveal_strlit("55");
    assert(Str_55::name_spec() =~= decimal_name(55)) by {
        reveal_with_fuel(decimal_name, 2);
    }
    lemma_decimal_name_value(55);
    reveal_strlit("56");
    assert(Str_56::name_spec() =~= decimal_name(56)) by {
        reveal_with_fuel(decimal_name, 2);
    }
    lemma_decimal_name_value(56);
    reveal_strlit("57");
    assert(Str_57::name_spec() =~= decimal_name(57)) by {
        reveal_with_fuel(decimal_name, 2);
    }
    lemma_decimal_name_value(57);
    reveal_strlit("58");
    assert(Str_58::name_spec() =~= decimal_name(58)) by {
        reveal_with_fuel(decimal_name, 2);
    }
    lemma_decimal_name_value(58);
    reveal_strlit("59");
    assert(Str_59::name_spec() =~= decimal_name(59)) by {
        reveal_with_fuel(decimal_name, 2);
    }
    lemma_decimal_name_value(59);
    reveal_strlit("60");
    assert(Str_60::name_spec() =~= decimal_name(60)) by {
        reveal_with_fuel(decimal_name, 2);
    }
    lemma_decimal_name_value(60);
    reveal_strlit("61");
    assert(Str_61::name_spec() =~= decimal_name(61)) by {
        reveal_with_fuel(decimal_name, 2);
    }
    lemma_decimal_name_value(61);
    reveal_strlit("62");
    assert(Str_62::name_spec() =~= decimal_name(62)) by {
        reveal_with_fuel(decimal_name, 2);
    }
    lemma_decimal_name_value(62);
    reveal_strlit("63");
    assert(Str_63::name_spec() =~= decimal_name(63)) by {
        reveal_with_fuel(decimal_name, 2);
    }
    lemma_decimal_name_value(63);
    reveal_strlit("99");
    assert(Str_99::name_spec() =~= decimal_name(99)) by {
        reveal_with_fuel(decimal_name, 2);
    }
    lemma_decimal_name_value(99);
}

} // verus!
