use proc_macro2::{Span, TokenStream};
use separable::derive::separable_derive_wrapper;
use separable::input::{Data, Fields, Input, Variant};
use separable::Separable;

#[derive(Debug, PartialEq)]
enum Temperature {
    Celsius(f64),
    Fahrenheit(f64),
    Kelvin(f64),
}

// The impls below are the expansion for `Temperature`, as `GENERATED` holds it;
// only the `allow` attributes are added.

impl FromIterator<Temperature> for (Vec<f64>, Vec<f64>, Vec<f64>,) {
    #[allow(redundant_semicolons)]
    fn from_iter<I: IntoIterator<Item = Temperature>>(iter: I) -> Self {
        let mut collection_0 = Vec::new(); ;
        let mut collection_1 = Vec::new(); ;
        let mut collection_2 = Vec::new();
        for i in iter {
            match i {
                Temperature::Celsius(v) => collection_0.push(v),
                Temperature::Fahrenheit(v) => collection_1.push(v),
                Temperature::Kelvin(v) => collection_2.push(v)
            }
        }
        (collection_0, collection_1, collection_2,)
    }
}

impl<'a> FromIterator<&'a Temperature> for (Vec<&'a f64>, Vec<&'a f64>, Vec<&'a f64>,) {
    #[allow(redundant_semicolons)]
    fn from_iter<I: IntoIterator<Item = &'a Temperature>>(iter: I) -> Self {
        let mut collection_0 = Vec::new(); ;
        let mut collection_1 = Vec::new(); ;
        let mut collection_2 = Vec::new();
        for i in iter {
            match i {
                Temperature::Celsius(v) => collection_0.push(v),
                Temperature::Fahrenheit(v) => collection_1.push(v),
                Temperature::Kelvin(v) => collection_2.push(v)
            }
        }
        (collection_0, collection_1, collection_2,)
    }
}

impl<'a> FromIterator<&'a mut Temperature>
    for (Vec<&'a mut f64>, Vec<&'a mut f64>, Vec<&'a mut f64>,)
{
    #[allow(redundant_semicolons)]
    fn from_iter<I: IntoIterator<Item = &'a mut Temperature>>(iter: I) -> Self {
        let mut collection_0 = Vec::new(); ;
        let mut collection_1 = Vec::new(); ;
        let mut collection_2 = Vec::new();
        for i in iter {
            match i {
                Temperature::Celsius(v) => collection_0.push(v),
                Temperature::Fahrenheit(v) => collection_1.push(v),
                Temperature::Kelvin(v) => collection_2.push(v)
            }
        }
        (collection_0, collection_1, collection_2,)
    }
}

impl separable::Separable for Temperature {
    type Target = (Vec<f64>, Vec<f64>, Vec<f64>,);
}

impl<'a> separable::Separable for &'a Temperature {
    type Target = (Vec<&'a f64>, Vec<&'a f64>, Vec<&'a f64>,);
}

impl<'a> separable::Separable for &'a mut Temperature {
    type Target = (Vec<&'a mut f64>, Vec<&'a mut f64>, Vec<&'a mut f64>,);
}

const GENERATED: &str = "
impl FromIterator<Temperature> for (Vec<f64>, Vec<f64>, Vec<f64>,) {
    fn from_iter<I: IntoIterator<Item = Temperature>>(iter: I) -> Self {
        let mut collection_0 = Vec::new(); ;
        let mut collection_1 = Vec::new(); ;
        let mut collection_2 = Vec::new();
        for i in iter {
            match i {
                Temperature::Celsius(v) => collection_0.push(v),
                Temperature::Fahrenheit(v) => collection_1.push(v),
                Temperature::Kelvin(v) => collection_2.push(v)
            }
        }
        (collection_0, collection_1, collection_2,)
    }
}

impl<'a> FromIterator<&'a Temperature> for (Vec<&'a f64>, Vec<&'a f64>, Vec<&'a f64>,) {
    fn from_iter<I: IntoIterator<Item = &'a Temperature>>(iter: I) -> Self {
        let mut collection_0 = Vec::new(); ;
        let mut collection_1 = Vec::new(); ;
        let mut collection_2 = Vec::new();
        for i in iter {
            match i {
                Temperature::Celsius(v) => collection_0.push(v),
                Temperature::Fahrenheit(v) => collection_1.push(v),
                Temperature::Kelvin(v) => collection_2.push(v)
            }
        }
        (collection_0, collection_1, collection_2,)
    }
}

impl<'a> FromIterator<&'a mut Temperature>
    for (Vec<&'a mut f64>, Vec<&'a mut f64>, Vec<&'a mut f64>,)
{
    fn from_iter<I: IntoIterator<Item = &'a mut Temperature>>(iter: I) -> Self {
        let mut collection_0 = Vec::new(); ;
        let mut collection_1 = Vec::new(); ;
        let mut collection_2 = Vec::new();
        for i in iter {
            match i {
                Temperature::Celsius(v) => collection_0.push(v),
                Temperature::Fahrenheit(v) => collection_1.push(v),
                Temperature::Kelvin(v) => collection_2.push(v)
            }
        }
        (collection_0, collection_1, collection_2,)
    }
}

impl separable::Separable for Temperature {
    type Target = (Vec<f64>, Vec<f64>, Vec<f64>,);
}

impl<'a> separable::Separable for &'a Temperature {
    type Target = (Vec<&'a f64>, Vec<&'a f64>, Vec<&'a f64>,);
}

impl<'a> separable::Separable for &'a mut Temperature {
    type Target = (Vec<&'a mut f64>, Vec<&'a mut f64>, Vec<&'a mut f64>,);
}
";

fn stream(text: &str) -> TokenStream {
    text.parse().unwrap()
}

fn tuple_variant(name: &str, payload: &str) -> Variant {
    Variant {
        ident: stream(name),
        span: Span::call_site(),
        fields: Fields::Unnamed { types: vec![stream(payload)], span: Span::call_site() },
    }
}

fn squeeze(text: &str) -> String {
    text.chars().filter(|c| !c.is_whitespace()).collect()
}

fn measurements() -> Vec<Temperature> {
    vec![
        Temperature::Celsius(23.0),
        Temperature::Fahrenheit(2.0),
        Temperature::Celsius(22.5),
        Temperature::Kelvin(288.0),
        Temperature::Celsius(23.1),
        Temperature::Fahrenheit(5.0),
    ]
}

#[test]
fn expansion_for_temperature_is_the_code_above() {
    let input = Input {
        ident: stream("Temperature"),
        parameters: Vec::new(),
        data: Data::Enum {
            span: Span::call_site(),
            variants: vec![
                tuple_variant("Celsius", "f64"),
                tuple_variant("Fahrenheit", "f64"),
                tuple_variant("Kelvin", "f64"),
            ],
        },
    };
    let expansion = separable_derive_wrapper(input).unwrap_or_else(|e| panic!("{}", e.to_string()));
    assert_eq!(squeeze(&expansion.to_string()), squeeze(GENERATED));
}

#[test]
fn separates_the_values_of_each_variant_in_order() {
    let (celsius, fahrenheit, kelvin): <Temperature as Separable>::Target =
        measurements().into_iter().collect();
    assert_eq!(celsius, vec![23.0f64, 22.5f64, 23.1f64]);
    assert_eq!(fahrenheit, vec![2.0f64, 5.0f64]);
    assert_eq!(kelvin, vec![288.0f64]);
}

#[test]
fn separates_shared_references() {
    let values = measurements();
    let (celsius, fahrenheit, kelvin): <&Temperature as Separable>::Target =
        values.iter().collect();
    assert_eq!(celsius, vec![&23.0f64, &22.5f64, &23.1f64]);
    assert_eq!(fahrenheit, vec![&2.0f64, &5.0f64]);
    assert_eq!(kelvin, vec![&288.0f64]);
}

#[test]
fn separates_exclusive_references() {
    let mut values = measurements();
    let (celsius, _fahrenheit, kelvin): <&mut Temperature as Separable>::Target =
        values.iter_mut().collect();
    for value in celsius {
        *value += 1.0;
    }
    for value in kelvin {
        *value = 0.0;
    }
    assert_eq!(
        values,
        vec![
            Temperature::Celsius(24.0),
            Temperature::Fahrenheit(2.0),
            Temperature::Celsius(23.5),
            Temperature::Kelvin(0.0),
            Temperature::Celsius(24.1),
            Temperature::Fahrenheit(5.0),
        ]
    );
}

#[test]
fn separating_nothing_gives_empty_sequences() {
    let (celsius, fahrenheit, kelvin): <Temperature as Separable>::Target =
        Vec::<Temperature>::new().into_iter().collect();
    assert!(celsius.is_empty() && fahrenheit.is_empty() && kelvin.is_empty());
}

#[test]
fn every_accepted_expansion_parses_as_items() {
    for count in 1..=12 {
        let variants = (0..count)
            .map(|k| tuple_variant(&format!("V{}", k), if k % 2 == 0 { "u8" } else { "Vec<String>" }))
            .collect();
        let input = Input {
            ident: stream("Wide"),
            parameters: Vec::new(),
            data: Data::Enum { span: Span::call_site(), variants },
        };
        let expansion =
            separable_derive_wrapper(input).unwrap_or_else(|e| panic!("{}", e.to_string()));
        let file: syn::File = syn::parse2(expansion).unwrap();
        assert_eq!(file.items.len(), 6);
    }
}
