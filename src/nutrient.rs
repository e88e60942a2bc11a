use crate::text::{lower_of, lowercase};
use vstd::prelude::*;

verus! {

/// The name of the nutrient with identifier `id`, for the identifiers 1 to 64.
pub open spec fn nutrient_name(id: u16) -> Option<Seq<char>> {
    match id {
        1 => Some("Calories"@),
        2 => Some("Fat"@),
        3 => Some("Saturated Fat"@),
        4 => Some("Cholesterol"@),
        5 => Some("Carbohydrates"@),
        6 => Some("Fiber"@),
        7 => Some("Sugar"@),
        8 => Some("Protein"@),
        9 => Some("Vitamin A"@),
        10 => Some("Vitamin B1"@),
        11 => Some("Vitamin B2"@),
        12 => Some("Vitamin B3"@),
        13 => Some("Vitamin B5"@),
        14 => Some("Vitamin B6"@),
        15 => Some("Vitamin B9"@),
        16 => Some("Vitamin B12"@),
        17 => Some("Vitamin C"@),
        18 => Some("Vitamin D"@),
        19 => Some("Vitamin E"@),
        20 => Some("Vitamin K"@),
        21 => Some("Choline"@),
        22 => Some("Lycopene"@),
        23 => Some("Lutein & Zeazanthin"@),
        24 => Some("Calcium"@),
        25 => Some("Copper"@),
        26 => Some("Iodine"@),
        27 => Some("Iron"@),
        28 => Some("Magnesium"@),
        29 => Some("Manganese"@),
        30 => Some("Phosphorus"@),
        31 => Some("Potassium"@),
        32 => Some("Selenium"@),
        33 => Some("Sodium"@),
        34 => Some("Zinc"@),
        35 => Some("Ash"@),
        36 => Some("Water"@),
        37 => Some("Starch"@),
        38 => Some("Sucrose"@),
        39 => Some("Glucose"@),
        40 => Some("Fructose"@),
        41 => Some("Lactose"@),
        42 => Some("Maltose"@),
        43 => Some("Galactose"@),
        44 => Some("Omega 3S"@),
        45 => Some("Omega 6S"@),
        46 => Some("Tryptophan"@),
        47 => Some("Histidine"@),
        48 => Some("Threonine"@),
        49 => Some("Isoleucine"@),
        50 => Some("Lysine"@),
        51 => Some("Leucine"@),
        52 => Some("Methionine"@),
        53 => Some("Cystine"@),
        54 => Some("Phenylalanine"@),
        55 => Some("Tyrosine"@),
        56 => Some("Valine"@),
        57 => Some("Arginine"@),
        58 => Some("Alanine"@),
        59 => Some("Aspartic Acid"@),
        60 => Some("Glutamic Acid"@),
        61 => Some("Glycine"@),
        62 => Some("Proline"@),
        63 => Some("Serine"@),
        64 => Some("Hydroxyproline"@),
        _ => None,
    }
}

/// Whether `id` names a known nutrient.
pub open spec fn is_nutrient_id(id: u16) -> bool {
    1 <= id <= 64
}

/// The name of the nutrient with identifier `id`, if it is known.
pub fn name_of(id: u16) -> (r: Option<&'static str>)
    ensures
        r is Some <==> is_nutrient_id(id),
        r matches Some(n) ==> nutrient_name(id) == Some(n@),
        r is None ==> nutrient_name(id) is None,
{
    match id {
        1 => Some("Calories"),
        2 => Some("Fat"),
        3 => Some("Saturated Fat"),
        4 => Some("Cholesterol"),
        5 => Some("Carbohydrates"),
        6 => Some("Fiber"),
        7 => Some("Sugar"),
        8 => Some("Protein"),
        9 => Some("Vitamin A"),
        10 => Some("Vitamin B1"),
        11 => Some("Vitamin B2"),
        12 => Some("Vitamin B3"),
        13 => Some("Vitamin B5"),
        14 => Some("Vitamin B6"),
        15 => Some("Vitamin B9"),
        16 => Some("Vitamin B12"),
        17 => Some("Vitamin C"),
        18 => Some("Vitamin D"),
        19 => Some("Vitamin E"),
        20 => Some("Vitamin K"),
        21 => Some("Choline"),
        22 => Some("Lycopene"),
        23 => Some("Lutein & Zeazanthin"),
        24 => Some("Calcium"),
        25 => Some("Copper"),
        26 => Some("Iodine"),
        27 => Some("Iron"),
        28 => Some("Magnesium"),
        29 => Some("Manganese"),
        30 => Some("Phosphorus"),
        31 => Some("Potassium"),
        32 => Some("Selenium"),
        33 => Some("Sodium"),
        34 => Some("Zinc"),
        35 => Some("Ash"),
        36 => Some("Water"),
        37 => Some("Starch"),
        38 => Some("Sucrose"),
        39 => Some("Glucose"),
        40 => Some("Fructose"),
        41 => Some("Lactose"),
        42 => Some("Maltose"),
        43 => Some("Galactose"),
        44 => Some("Omega 3S"),
        45 => Some("Omega 6S"),
        46 => Some("Tryptophan"),
        47 => Some("Histidine"),
        48 => Some("Threonine"),
        49 => Some("Isoleucine"),
        50 => Some("Lysine"),
        51 => Some("Leucine"),
        52 => Some("Methionine"),
        53 => Some("Cystine"),
        54 => Some("Phenylalanine"),
        55 => Some("Tyrosine"),
        56 => Some("Valine"),
        57 => Some("Arginine"),
        58 => Some("Alanine"),
        59 => Some("Aspartic Acid"),
        60 => Some("Glutamic Acid"),
        61 => Some("Glycine"),
        62 => Some("Proline"),
        63 => Some("Serine"),
        64 => Some("Hydroxyproline"),
        _ => None,
    }
}

/// Whether the nutrient `id` is the first whose name matches `lower`
/// regardless of case.
pub open spec fn first_match(id: u16, lower: Seq<char>) -> bool {
    &&& is_nutrient_id(id)
    &&& lower_of(nutrient_name(id)->0) == lower
    &&& forall|k: u16| 1 <= k < id ==> lower_of(#[trigger] nutrient_name(k)->0) != lower
}

/// A nutrient, by its identifier.
#[derive(Clone, Copy, Debug, PartialEq, Eq, Structural, Hash)]
pub struct Nutrient(pub u16);

impl Nutrient {
    /// The nutrient whose name equals `s` regardless of case.
    pub fn from_str(s: &str) -> (r: Option<Nutrient>)
        ensures
            r matches Some(n) ==> first_match(n.0, lower_of(s@)),
            r is None ==> forall|k: u16|
                is_nutrient_id(k) ==> lower_of(#[trigger] nutrient_name(k)->0) != lower_of(s@),
    {
        let wanted = lowercase(s);
        let mut id: u16 = 1;
        while id <= 64
            invariant
                1 <= id <= 65,
                wanted@ == lower_of(s@),
                forall|k: u16| 1 <= k < id ==> lower_of(#[trigger] nutrient_name(k)->0) != wanted@,
            decreases 65 - id,
        {
            let name = name_of(id);
            match name {
                Some(n) => {
                    let lower = lowercase(n);
                    if lower == wanted {
                        return Some(Nutrient(id));
                    }
                },
                None => {},
            }
            id = id + 1;
        }
        None
    }

    /// The name of the nutrient.
    pub fn as_str(&self) -> (r: &'static str)
        requires
            is_nutrient_id(self.0),
        ensures
            nutrient_name(self.0) == Some(r@),
    {
        match name_of(self.0) {
            Some(n) => n,
            None => "",
        }
    }

    /// The name of the nutrient, or `Invalid Nutrient` for an unknown
    /// identifier.
    pub fn to_string(&self) -> (r: String)
        ensures
            nutrient_name(self.0) matches Some(n) ==> r@ == n,
            nutrient_name(self.0) is None ==> r@ == "Invalid Nutrient"@,
    {
        match name_of(self.0) {
            Some(n) => n.to_string(),
            None => "Invalid Nutrient".to_string(),
        }
    }
}

/// A nutrient that is read and written as its name rather than its
/// identifier.
#[derive(Clone, Copy, Debug, PartialEq, Eq, Structural, Hash)]
pub struct SerdeStringNutrient(pub Nutrient);

impl SerdeStringNutrient {
    /// The nutrient whose name equals `s` regardless of case.
    pub fn from_string(s: String) -> (r: Option<SerdeStringNutrient>)
        ensures
            r matches Some(n) ==> first_match(n.0.0, lower_of(s@)),
            r is None ==> forall|k: u16|
                is_nutrient_id(k) ==> lower_of(#[trigger] nutrient_name(k)->0) != lower_of(s@),
    {
        match Nutrient::from_str(s.as_str()) {
            Some(n) => Some(SerdeStringNutrient(n)),
            None => None,
        }
    }

    /// The nutrient.
    pub fn into_nutrient(self) -> (r: Nutrient)
        ensures
            r == self.0,
    {
        self.0
    }
}

} // verus!
