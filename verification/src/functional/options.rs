//! Options: configuring an object by handing its constructor a list of
//! option values, applied in order over the defaults.

use vstd::prelude::*;

verus! {

/// One configuration option for a [`House`].
#[derive(Clone, Copy, Debug, PartialEq, Eq, Structural)]
pub enum HouseOption {
    MaterialKerpic,
    WithoutFireplace,
    Floors(i32),
}

/// A house: its build material, whether it has a fireplace, and how
/// many floors it has.
#[derive(Debug, PartialEq)]
pub struct House {
    pub material: String,
    pub has_fireplace: bool,
    pub floors: i32,
}

/// The abstract value of a house: material, fireplace, floors.
pub open spec fn house_view(h: House) -> (Seq<char>, bool, int) {
    (h.material@, h.has_fireplace, h.floors as int)
}

/// The defaults an unconfigured house starts from.
pub open spec fn default_house_view() -> (Seq<char>, bool, int) {
    ("wood"@, true, 2)
}

/// What one option does to a house's value.
pub open spec fn apply_option_view(v: (Seq<char>, bool, int), o: HouseOption) -> (
    Seq<char>,
    bool,
    int,
) {
    match o {
        HouseOption::MaterialKerpic => ("kerpic"@, v.1, v.2),
        HouseOption::WithoutFireplace => (v.0, false, v.2),
        HouseOption::Floors(n) => (v.0, v.1, n as int),
    }
}

/// The value of a house after applying `options` in order over `v`.
pub open spec fn fold_options(v: (Seq<char>, bool, int), options: Seq<HouseOption>) -> (
    Seq<char>,
    bool,
    int,
)
    decreases options.len(),
{
    if options.len() == 0 {
        v
    } else {
        fold_options(apply_option_view(v, options[0]), options.skip(1))
    }
}

impl House {
    /// Builds a house from the defaults, applying each option in order.
    pub fn new(options: Vec<HouseOption>) -> (house: House)
        ensures
            house_view(house) == fold_options(default_house_view(), options@),
    {
        let mut house = House { material: "wood".to_owned(), has_fireplace: true, floors: 2 };
        let mut i: usize = 0;
        while i < options.len()
            invariant
                i <= options.len(),
                house_view(house) == fold_options(default_house_view(), options@.take(i as int)),
            decreases options.len() - i,
        {
            proof {
                lemma_fold_options_snoc(default_house_view(), options@, i as int);
            }
            match options[i] {
                HouseOption::MaterialKerpic => {
                    house.material = "kerpic".to_owned();
                },
                HouseOption::WithoutFireplace => {
                    house.has_fireplace = false;
                },
                HouseOption::Floors(n) => {
                    house.floors = n;
                },
            }
            i += 1;
        }
        proof {
            assert(options@.take(options@.len() as int) =~= options@);
        }
        house
    }
}

/// Folding one more option is applying it to the fold of the prefix.
proof fn lemma_fold_options_snoc(v: (Seq<char>, bool, int), options: Seq<HouseOption>, i: int)
    requires
        0 <= i < options.len(),
    ensures
        fold_options(v, options.take(i + 1)) == apply_option_view(
            fold_options(v, options.take(i)),
            options[i],
        ),
    decreases i,
{
    if i == 0 {
        let empty = Seq::<HouseOption>::empty();
        assert(options.take(0) =~= empty);
        assert(fold_options(v, empty) == v);
        assert(options.take(1) =~= seq![options[0]]);
        assert(options.take(1).skip(1) =~= empty);
        assert(fold_options(v, options.take(1)) == fold_options(
            apply_option_view(v, options[0]),
            empty,
        ));
    } else {
        let w = apply_option_view(v, options[0]);
        assert(options.take(i + 1)[0] == options[0]);
        assert(options.take(i + 1).skip(1) =~= options.skip(1).take(i));
        assert(fold_options(v, options.take(i + 1)) == fold_options(w, options.skip(1).take(i)));
        assert(options.take(i)[0] == options[0]);
        assert(options.take(i).skip(1) =~= options.skip(1).take(i - 1));
        assert(fold_options(v, options.take(i)) == fold_options(w, options.skip(1).take(i - 1)));
        lemma_fold_options_snoc(w, options.skip(1), i - 1);
        assert(options.skip(1)[i - 1] == options[i]);
    }
}

/// The option that builds the house out of kerpic.
pub fn with_material_kerpic() -> (o: HouseOption)
    ensures
        o == HouseOption::MaterialKerpic,
{
    HouseOption::MaterialKerpic
}

/// The option that leaves the fireplace out.
pub fn without_fireplace() -> (o: HouseOption)
    ensures
        o == HouseOption::WithoutFireplace,
{
    HouseOption::WithoutFireplace
}

/// The option that sets the number of floors.
pub fn with_floors(floors: i32) -> (o: HouseOption)
    ensures
        o == HouseOption::Floors(floors),
{
    HouseOption::Floors(floors)
}

} // verus!
