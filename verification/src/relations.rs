//! The words of the two relation vocabularies, and the open case beside them.
//!
//! A relation of the fixed vocabulary is written as its word. A custom relation
//! is written as an object that holds its text, so that custom text can never
//! be taken for a word of the vocabulary, whatever it says.

use crate::interchange::{
    fields_view, finish_object, push_field, str_eq, text_at, text_field, text_value,
    InterchangeValue, Json,
};
use crate::math_node::{RelationOperatorNode, UnaryRelationOperatorNode};
use crate::model::{RelationOperatorModel, UnaryRelationOperatorModel};
use vstd::prelude::*;

verus! {

impl RelationOperatorModel {
    /// The word for the relation: the fixed word of a case of the vocabulary, or the
    /// text of a custom one, unchanged.
    pub open spec fn tag(self) -> Seq<char> {
        match self {
            RelationOperatorModel::IsEqual => "is_equal"@,
            RelationOperatorModel::Equal => "equal"@,
            RelationOperatorModel::NotEqual => "not_equal"@,
            RelationOperatorModel::Greater => "greater"@,
            RelationOperatorModel::Less => "less"@,
            RelationOperatorModel::GreaterEqual => "greater_equal"@,
            RelationOperatorModel::LessEqual => "less_equal"@,
            RelationOperatorModel::Collinear => "collinear"@,
            RelationOperatorModel::Perpendicular => "perpendicular"@,
            RelationOperatorModel::Equivalent => "equivalent"@,
            RelationOperatorModel::Similar => "similar"@,
            RelationOperatorModel::Congruent => "congruent"@,
            RelationOperatorModel::ElementOf => "element_of"@,
            RelationOperatorModel::NotElementOf => "not_element_of"@,
            RelationOperatorModel::SubsetOf => "subset_of"@,
            RelationOperatorModel::ProperSubsetOf => "proper_subset_of"@,
            RelationOperatorModel::SupersetOf => "superset_of"@,
            RelationOperatorModel::ProperSupersetOf => "proper_superset_of"@,
            RelationOperatorModel::Disjoint => "disjoint"@,
            RelationOperatorModel::Union => "union"@,
            RelationOperatorModel::Intersection => "intersection"@,
            RelationOperatorModel::CartesianProduct => "cartesian_product"@,
            RelationOperatorModel::SameCardinality => "same_cardinality"@,
            RelationOperatorModel::Divides => "divides"@,
            RelationOperatorModel::NotDivides => "not_divides"@,
            RelationOperatorModel::CongruentMod => "congruent_mod"@,
            RelationOperatorModel::NotCongruentMod => "not_congruent_mod"@,
            RelationOperatorModel::AreCoprime => "are_coprime"@,
            RelationOperatorModel::IsSubgroupOf => "is_subgroup_of"@,
            RelationOperatorModel::IsNormalSubgroupOf => "is_normal_subgroup_of"@,
            RelationOperatorModel::IsIsomorphicTo => "is_isomorphic_to"@,
            RelationOperatorModel::IsHomomorphicTo => "is_homomorphic_to"@,
            RelationOperatorModel::IsQuotientOf => "is_quotient_of"@,
            RelationOperatorModel::IsInCenterOf => "is_in_center_of"@,
            RelationOperatorModel::AreConjugateIn => "are_conjugate_in"@,
            RelationOperatorModel::IsSubringOf => "is_subring_of"@,
            RelationOperatorModel::IsIdealOf => "is_ideal_of"@,
            RelationOperatorModel::IsOpenIn => "is_open_in"@,
            RelationOperatorModel::IsClosedIn => "is_closed_in"@,
            RelationOperatorModel::IsHomeomorphicTo => "is_homeomorphic_to"@,
            RelationOperatorModel::IsDense => "is_dense"@,
            RelationOperatorModel::IsMorphismBetween => "is_morphism_between"@,
            RelationOperatorModel::IsIsomorphismIn => "is_isomorphism_in"@,
            RelationOperatorModel::IsMonomorphismIn => "is_monomorphism_in"@,
            RelationOperatorModel::IsEpimorphismIn => "is_epimorphism_in"@,
            RelationOperatorModel::IsNaturalTransformationBetween => {
                "is_natural_transformation_between"@
            },
            RelationOperatorModel::IsAdjunctionBetween => "is_adjunction_between"@,
            RelationOperatorModel::ComposesTo => "composes_to"@,
            RelationOperatorModel::Implies => "implies"@,
            RelationOperatorModel::Iff => "iff"@,
            RelationOperatorModel::Custom(text) => text,
        }
    }

    /// The case of the vocabulary that `word` stands for, if any. Never a
    /// custom one.
    pub open spec fn parse(word: Seq<char>) -> Option<RelationOperatorModel> {
        if word == "is_equal"@ {
            Some(RelationOperatorModel::IsEqual)
        } else if word == "equal"@ {
            Some(RelationOperatorModel::Equal)
        } else if word == "not_equal"@ {
            Some(RelationOperatorModel::NotEqual)
        } else if word == "greater"@ {
            Some(RelationOperatorModel::Greater)
        } else if word == "less"@ {
            Some(RelationOperatorModel::Less)
        } else if word == "greater_equal"@ {
            Some(RelationOperatorModel::GreaterEqual)
        } else if word == "less_equal"@ {
            Some(RelationOperatorModel::LessEqual)
        } else if word == "collinear"@ {
            Some(RelationOperatorModel::Collinear)
        } else if word == "perpendicular"@ {
            Some(RelationOperatorModel::Perpendicular)
        } else if word == "equivalent"@ {
            Some(RelationOperatorModel::Equivalent)
        } else if word == "similar"@ {
            Some(RelationOperatorModel::Similar)
        } else if word == "congruent"@ {
            Some(RelationOperatorModel::Congruent)
        } else if word == "element_of"@ {
            Some(RelationOperatorModel::ElementOf)
        } else if word == "not_element_of"@ {
            Some(RelationOperatorModel::NotElementOf)
        } else if word == "subset_of"@ {
            Some(RelationOperatorModel::SubsetOf)
        } else if word == "proper_subset_of"@ {
            Some(RelationOperatorModel::ProperSubsetOf)
        } else if word == "superset_of"@ {
            Some(RelationOperatorModel::SupersetOf)
        } else if word == "proper_superset_of"@ {
            Some(RelationOperatorModel::ProperSupersetOf)
        } else if word == "disjoint"@ {
            Some(RelationOperatorModel::Disjoint)
        } else if word == "union"@ {
            Some(RelationOperatorModel::Union)
        } else if word == "intersection"@ {
            Some(RelationOperatorModel::Intersection)
        } else if word == "cartesian_product"@ {
            Some(RelationOperatorModel::CartesianProduct)
        } else if word == "same_cardinality"@ {
            Some(RelationOperatorModel::SameCardinality)
        } else if word == "divides"@ {
            Some(RelationOperatorModel::Divides)
        } else if word == "not_divides"@ {
            Some(RelationOperatorModel::NotDivides)
        } else if word == "congruent_mod"@ {
            Some(RelationOperatorModel::CongruentMod)
        } else if word == "not_congruent_mod"@ {
            Some(RelationOperatorModel::NotCongruentMod)
        } else if word == "are_coprime"@ {
            Some(RelationOperatorModel::AreCoprime)
        } else if word == "is_subgroup_of"@ {
            Some(RelationOperatorModel::IsSubgroupOf)
        } else if word == "is_normal_subgroup_of"@ {
            Some(RelationOperatorModel::IsNormalSubgroupOf)
        } else if word == "is_isomorphic_to"@ {
            Some(RelationOperatorModel::IsIsomorphicTo)
        } else if word == "is_homomorphic_to"@ {
            Some(RelationOperatorModel::IsHomomorphicTo)
        } else if word == "is_quotient_of"@ {
            Some(RelationOperatorModel::IsQuotientOf)
        } else if word == "is_in_center_of"@ {
            Some(RelationOperatorModel::IsInCenterOf)
        } else if word == "are_conjugate_in"@ {
            Some(RelationOperatorModel::AreConjugateIn)
        } else if word == "is_subring_of"@ {
            Some(RelationOperatorModel::IsSubringOf)
        } else if word == "is_ideal_of"@ {
            Some(RelationOperatorModel::IsIdealOf)
        } else if word == "is_open_in"@ {
            Some(RelationOperatorModel::IsOpenIn)
        } else if word == "is_closed_in"@ {
            Some(RelationOperatorModel::IsClosedIn)
        } else if word == "is_homeomorphic_to"@ {
            Some(RelationOperatorModel::IsHomeomorphicTo)
        } else if word == "is_dense"@ {
            Some(RelationOperatorModel::IsDense)
        } else if word == "is_morphism_between"@ {
            Some(RelationOperatorModel::IsMorphismBetween)
        } else if word == "is_isomorphism_in"@ {
            Some(RelationOperatorModel::IsIsomorphismIn)
        } else if word == "is_monomorphism_in"@ {
            Some(RelationOperatorModel::IsMonomorphismIn)
        } else if word == "is_epimorphism_in"@ {
            Some(RelationOperatorModel::IsEpimorphismIn)
        } else if word == "is_natural_transformation_between"@ {
            Some(RelationOperatorModel::IsNaturalTransformationBetween)
        } else if word == "is_adjunction_between"@ {
            Some(RelationOperatorModel::IsAdjunctionBetween)
        } else if word == "composes_to"@ {
            Some(RelationOperatorModel::ComposesTo)
        } else if word == "implies"@ {
            Some(RelationOperatorModel::Implies)
        } else if word == "iff"@ {
            Some(RelationOperatorModel::Iff)
        } else {
            None
        }
    }

    /// How the relation is written in the interchange form: a case of the vocabulary
    /// as its word, a custom one as an object that holds its text.
    pub open spec fn encode(self) -> Json {
        match self {
            RelationOperatorModel::Custom(text) => Json::Object(
                Seq::empty().push(("custom"@, Json::Text(text))),
            ),
            _ => Json::Text(self.tag()),
        }
    }

    /// What an interchange value stands for, if it is of one of the two forms
    /// of [`Self::encode`].
    pub open spec fn decode(value: Json) -> Option<RelationOperatorModel> {
        match value {
            Json::Text(word) => Self::parse(word),
            Json::Object(fields) => if fields.len() == 1 && text_field(
                fields,
                0,
                "custom"@,
            ) {
                Some(RelationOperatorModel::Custom(fields[0].1->Text_0))
            } else {
                None
            },
            _ => None,
        }
    }

    /// No two cases of the vocabulary share a word.
    pub proof fn lemma_parse_tag(self)
        requires
            !(self is Custom),
        ensures
            Self::parse(self.tag()) == Some(self),
    {
        reveal_strlit("is_equal");
        reveal_strlit("equal");
        reveal_strlit("not_equal");
        reveal_strlit("greater");
        reveal_strlit("less");
        reveal_strlit("greater_equal");
        reveal_strlit("less_equal");
        reveal_strlit("collinear");
        reveal_strlit("perpendicular");
        reveal_strlit("equivalent");
        reveal_strlit("similar");
        reveal_strlit("congruent");
        reveal_strlit("element_of");
        reveal_strlit("not_element_of");
        reveal_strlit("subset_of");
        reveal_strlit("proper_subset_of");
        reveal_strlit("superset_of");
        reveal_strlit("proper_superset_of");
        reveal_strlit("disjoint");
        reveal_strlit("union");
        reveal_strlit("intersection");
        reveal_strlit("cartesian_product");
        reveal_strlit("same_cardinality");
        reveal_strlit("divides");
        reveal_strlit("not_divides");
        reveal_strlit("congruent_mod");
        reveal_strlit("not_congruent_mod");
        reveal_strlit("are_coprime");
        reveal_strlit("is_subgroup_of");
        reveal_strlit("is_normal_subgroup_of");
        reveal_strlit("is_isomorphic_to");
        reveal_strlit("is_homomorphic_to");
        reveal_strlit("is_quotient_of");
        reveal_strlit("is_in_center_of");
        reveal_strlit("are_conjugate_in");
        reveal_strlit("is_subring_of");
        reveal_strlit("is_ideal_of");
        reveal_strlit("is_open_in");
        reveal_strlit("is_closed_in");
        reveal_strlit("is_homeomorphic_to");
        reveal_strlit("is_dense");
        reveal_strlit("is_morphism_between");
        reveal_strlit("is_isomorphism_in");
        reveal_strlit("is_monomorphism_in");
        reveal_strlit("is_epimorphism_in");
        reveal_strlit("is_natural_transformation_between");
        reveal_strlit("is_adjunction_between");
        reveal_strlit("composes_to");
        reveal_strlit("implies");
        reveal_strlit("iff");
        assert("is_equal"@.len() == 8 && "is_equal"@[0] == 'i' && "is_equal"@[1] == 's');
        assert("is_equal"@[2] == '_' && "is_equal"@[3] == 'e' && "is_equal"@[4] == 'q');
        assert("is_equal"@[5] == 'u' && "is_equal"@[6] == 'a' && "is_equal"@[7] == 'l');
        assert("equal"@.len() == 5 && "equal"@[0] == 'e' && "equal"@[1] == 'q');
        assert("equal"@[2] == 'u' && "equal"@[3] == 'a' && "equal"@[4] == 'l');
        assert("not_equal"@.len() == 9 && "not_equal"@[0] == 'n' && "not_equal"@[1] == 'o');
        assert("not_equal"@[2] == 't' && "not_equal"@[3] == '_' && "not_equal"@[4] == 'e');
        assert("not_equal"@[5] == 'q' && "not_equal"@[6] == 'u' && "not_equal"@[7] == 'a');
        assert("not_equal"@[8] == 'l');
        assert("greater"@.len() == 7 && "greater"@[0] == 'g' && "greater"@[1] == 'r');
        assert("greater"@[2] == 'e' && "greater"@[3] == 'a' && "greater"@[4] == 't');
        assert("greater"@[5] == 'e' && "greater"@[6] == 'r');
        assert("less"@.len() == 4 && "less"@[0] == 'l' && "less"@[1] == 'e' && "less"@[2] == 's');
        assert("less"@[3] == 's');
        assert("greater_equal"@.len() == 13 && "greater_equal"@[0] == 'g');
        assert("greater_equal"@[1] == 'r' && "greater_equal"@[2] == 'e');
        assert("greater_equal"@[3] == 'a' && "greater_equal"@[4] == 't');
        assert("greater_equal"@[5] == 'e' && "greater_equal"@[6] == 'r');
        assert("greater_equal"@[7] == '_' && "greater_equal"@[8] == 'e');
        assert("greater_equal"@[9] == 'q' && "greater_equal"@[10] == 'u');
        assert("greater_equal"@[11] == 'a' && "greater_equal"@[12] == 'l');
        assert("less_equal"@.len() == 10 && "less_equal"@[0] == 'l' && "less_equal"@[1] == 'e');
        assert("less_equal"@[2] == 's' && "less_equal"@[3] == 's' && "less_equal"@[4] == '_');
        assert("less_equal"@[5] == 'e' && "less_equal"@[6] == 'q' && "less_equal"@[7] == 'u');
        assert("less_equal"@[8] == 'a' && "less_equal"@[9] == 'l');
        assert("collinear"@.len() == 9 && "collinear"@[0] == 'c' && "collinear"@[1] == 'o');
        assert("collinear"@[2] == 'l' && "collinear"@[3] == 'l' && "collinear"@[4] == 'i');
        assert("collinear"@[5] == 'n' && "collinear"@[6] == 'e' && "collinear"@[7] == 'a');
        assert("collinear"@[8] == 'r');
        assert("perpendicular"@.len() == 13 && "perpendicular"@[0] == 'p');
        assert("perpendicular"@[1] == 'e' && "perpendicular"@[2] == 'r');
        assert("perpendicular"@[3] == 'p' && "perpendicular"@[4] == 'e');
        assert("perpendicular"@[5] == 'n' && "perpendicular"@[6] == 'd');
        assert("perpendicular"@[7] == 'i' && "perpendicular"@[8] == 'c');
        assert("perpendicular"@[9] == 'u' && "perpendicular"@[10] == 'l');
        assert("perpendicular"@[11] == 'a' && "perpendicular"@[12] == 'r');
        assert("equivalent"@.len() == 10 && "equivalent"@[0] == 'e' && "equivalent"@[1] == 'q');
        assert("equivalent"@[2] == 'u' && "equivalent"@[3] == 'i' && "equivalent"@[4] == 'v');
        assert("equivalent"@[5] == 'a' && "equivalent"@[6] == 'l' && "equivalent"@[7] == 'e');
        assert("equivalent"@[8] == 'n' && "equivalent"@[9] == 't');
        assert("similar"@.len() == 7 && "similar"@[0] == 's' && "similar"@[1] == 'i');
        assert("similar"@[2] == 'm' && "similar"@[3] == 'i' && "similar"@[4] == 'l');
        assert("similar"@[5] == 'a' && "similar"@[6] == 'r');
        assert("congruent"@.len() == 9 && "congruent"@[0] == 'c' && "congruent"@[1] == 'o');
        assert("congruent"@[2] == 'n' && "congruent"@[3] == 'g' && "congruent"@[4] == 'r');
        assert("congruent"@[5] == 'u' && "congruent"@[6] == 'e' && "congruent"@[7] == 'n');
        assert("congruent"@[8] == 't');
        assert("element_of"@.len() == 10 && "element_of"@[0] == 'e' && "element_of"@[1] == 'l');
        assert("element_of"@[2] == 'e' && "element_of"@[3] == 'm' && "element_of"@[4] == 'e');
        assert("element_of"@[5] == 'n' && "element_of"@[6] == 't' && "element_of"@[7] == '_');
        assert("element_of"@[8] == 'o' && "element_of"@[9] == 'f');
        assert("not_element_of"@.len() == 14 && "not_element_of"@[0] == 'n');
        assert("not_element_of"@[1] == 'o' && "not_element_of"@[2] == 't');
        assert("not_element_of"@[3] == '_' && "not_element_of"@[4] == 'e');
        assert("not_element_of"@[5] == 'l' && "not_element_of"@[6] == 'e');
        assert("not_element_of"@[7] == 'm' && "not_element_of"@[8] == 'e');
        assert("not_element_of"@[9] == 'n' && "not_element_of"@[10] == 't');
        assert("not_element_of"@[11] == '_' && "not_element_of"@[12] == 'o');
        assert("not_element_of"@[13] == 'f');
        assert("subset_of"@.len() == 9 && "subset_of"@[0] == 's' && "subset_of"@[1] == 'u');
        assert("subset_of"@[2] == 'b' && "subset_of"@[3] == 's' && "subset_of"@[4] == 'e');
        assert("subset_of"@[5] == 't' && "subset_of"@[6] == '_' && "subset_of"@[7] == 'o');
        assert("subset_of"@[8] == 'f');
        assert("proper_subset_of"@.len() == 16 && "proper_subset_of"@[0] == 'p');
        assert("proper_subset_of"@[1] == 'r' && "proper_subset_of"@[2] == 'o');
        assert("proper_subset_of"@[3] == 'p' && "proper_subset_of"@[4] == 'e');
        assert("proper_subset_of"@[5] == 'r' && "proper_subset_of"@[6] == '_');
        assert("proper_subset_of"@[7] == 's' && "proper_subset_of"@[8] == 'u');
        assert("proper_subset_of"@[9] == 'b' && "proper_subset_of"@[10] == 's');
        assert("proper_subset_of"@[11] == 'e' && "proper_subset_of"@[12] == 't');
        assert("proper_subset_of"@[13] == '_' && "proper_subset_of"@[14] == 'o');
        assert("proper_subset_of"@[15] == 'f');
        assert("superset_of"@.len() == 11 && "superset_of"@[0] == 's' && "superset_of"@[1] == 'u');
        assert("superset_of"@[2] == 'p' && "superset_of"@[3] == 'e' && "superset_of"@[4] == 'r');
        assert("superset_of"@[5] == 's' && "superset_of"@[6] == 'e' && "superset_of"@[7] == 't');
        assert("superset_of"@[8] == '_' && "superset_of"@[9] == 'o' && "superset_of"@[10] == 'f');
        assert("proper_superset_of"@.len() == 18 && "proper_superset_of"@[0] == 'p');
        assert("proper_superset_of"@[1] == 'r' && "proper_superset_of"@[2] == 'o');
        assert("proper_superset_of"@[3] == 'p' && "proper_superset_of"@[4] == 'e');
        assert("proper_superset_of"@[5] == 'r' && "proper_superset_of"@[6] == '_');
        assert("proper_superset_of"@[7] == 's' && "proper_superset_of"@[8] == 'u');
        assert("proper_superset_of"@[9] == 'p' && "proper_superset_of"@[10] == 'e');
        assert("proper_superset_of"@[11] == 'r' && "proper_superset_of"@[12] == 's');
        assert("proper_superset_of"@[13] == 'e' && "proper_superset_of"@[14] == 't');
        assert("proper_superset_of"@[15] == '_' && "proper_superset_of"@[16] == 'o');
        assert("proper_superset_of"@[17] == 'f');
        assert("disjoint"@.len() == 8 && "disjoint"@[0] == 'd' && "disjoint"@[1] == 'i');
        assert("disjoint"@[2] == 's' && "disjoint"@[3] == 'j' && "disjoint"@[4] == 'o');
        assert("disjoint"@[5] == 'i' && "disjoint"@[6] == 'n' && "disjoint"@[7] == 't');
        assert("union"@.len() == 5 && "union"@[0] == 'u' && "union"@[1] == 'n');
        assert("union"@[2] == 'i' && "union"@[3] == 'o' && "union"@[4] == 'n');
        assert("intersection"@.len() == 12 && "intersection"@[0] == 'i');
        assert("intersection"@[1] == 'n' && "intersection"@[2] == 't' && "intersection"@[3] == 'e');
        assert("intersection"@[4] == 'r' && "intersection"@[5] == 's' && "intersection"@[6] == 'e');
        assert("intersection"@[7] == 'c' && "intersection"@[8] == 't' && "intersection"@[9] == 'i');
        assert("intersection"@[10] == 'o' && "intersection"@[11] == 'n');
        assert("cartesian_product"@.len() == 17 && "cartesian_product"@[0] == 'c');
        assert("cartesian_product"@[1] == 'a' && "cartesian_product"@[2] == 'r');
        assert("cartesian_product"@[3] == 't' && "cartesian_product"@[4] == 'e');
        assert("cartesian_product"@[5] == 's' && "cartesian_product"@[6] == 'i');
        assert("cartesian_product"@[7] == 'a' && "cartesian_product"@[8] == 'n');
        assert("cartesian_product"@[9] == '_' && "cartesian_product"@[10] == 'p');
        assert("cartesian_product"@[11] == 'r' && "cartesian_product"@[12] == 'o');
        assert("cartesian_product"@[13] == 'd' && "cartesian_product"@[14] == 'u');
        assert("cartesian_product"@[15] == 'c' && "cartesian_product"@[16] == 't');
        assert("same_cardinality"@.len() == 16 && "same_cardinality"@[0] == 's');
        assert("same_cardinality"@[1] == 'a' && "same_cardinality"@[2] == 'm');
        assert("same_cardinality"@[3] == 'e' && "same_cardinality"@[4] == '_');
        assert("same_cardinality"@[5] == 'c' && "same_cardinality"@[6] == 'a');
        assert("same_cardinality"@[7] == 'r' && "same_cardinality"@[8] == 'd');
        assert("same_cardinality"@[9] == 'i' && "same_cardinality"@[10] == 'n');
        assert("same_cardinality"@[11] == 'a' && "same_cardinality"@[12] == 'l');
        assert("same_cardinality"@[13] == 'i' && "same_cardinality"@[14] == 't');
        assert("same_cardinality"@[15] == 'y');
        assert("divides"@.len() == 7 && "divides"@[0] == 'd' && "divides"@[1] == 'i');
        assert("divides"@[2] == 'v' && "divides"@[3] == 'i' && "divides"@[4] == 'd');
        assert("divides"@[5] == 'e' && "divides"@[6] == 's');
        assert("not_divides"@.len() == 11 && "not_divides"@[0] == 'n' && "not_divides"@[1] == 'o');
        assert("not_divides"@[2] == 't' && "not_divides"@[3] == '_' && "not_divides"@[4] == 'd');
        assert("not_divides"@[5] == 'i' && "not_divides"@[6] == 'v' && "not_divides"@[7] == 'i');
        assert("not_divides"@[8] == 'd' && "not_divides"@[9] == 'e' && "not_divides"@[10] == 's');
        assert("congruent_mod"@.len() == 13 && "congruent_mod"@[0] == 'c');
        assert("congruent_mod"@[1] == 'o' && "congruent_mod"@[2] == 'n');
        assert("congruent_mod"@[3] == 'g' && "congruent_mod"@[4] == 'r');
        assert("congruent_mod"@[5] == 'u' && "congruent_mod"@[6] == 'e');
        assert("congruent_mod"@[7] == 'n' && "congruent_mod"@[8] == 't');
        assert("congruent_mod"@[9] == '_' && "congruent_mod"@[10] == 'm');
        assert("congruent_mod"@[11] == 'o' && "congruent_mod"@[12] == 'd');
        assert("not_congruent_mod"@.len() == 17 && "not_congruent_mod"@[0] == 'n');
        assert("not_congruent_mod"@[1] == 'o' && "not_congruent_mod"@[2] == 't');
        assert("not_congruent_mod"@[3] == '_' && "not_congruent_mod"@[4] == 'c');
        assert("not_congruent_mod"@[5] == 'o' && "not_congruent_mod"@[6] == 'n');
        assert("not_congruent_mod"@[7] == 'g' && "not_congruent_mod"@[8] == 'r');
        assert("not_congruent_mod"@[9] == 'u' && "not_congruent_mod"@[10] == 'e');
        assert("not_congruent_mod"@[11] == 'n' && "not_congruent_mod"@[12] == 't');
        assert("not_congruent_mod"@[13] == '_' && "not_congruent_mod"@[14] == 'm');
        assert("not_congruent_mod"@[15] == 'o' && "not_congruent_mod"@[16] == 'd');
        assert("are_coprime"@.len() == 11 && "are_coprime"@[0] == 'a' && "are_coprime"@[1] == 'r');
        assert("are_coprime"@[2] == 'e' && "are_coprime"@[3] == '_' && "are_coprime"@[4] == 'c');
        assert("are_coprime"@[5] == 'o' && "are_coprime"@[6] == 'p' && "are_coprime"@[7] == 'r');
        assert("are_coprime"@[8] == 'i' && "are_coprime"@[9] == 'm' && "are_coprime"@[10] == 'e');
        assert("is_subgroup_of"@.len() == 14 && "is_subgroup_of"@[0] == 'i');
        assert("is_subgroup_of"@[1] == 's' && "is_subgroup_of"@[2] == '_');
        assert("is_subgroup_of"@[3] == 's' && "is_subgroup_of"@[4] == 'u');
        assert("is_subgroup_of"@[5] == 'b' && "is_subgroup_of"@[6] == 'g');
        assert("is_subgroup_of"@[7] == 'r' && "is_subgroup_of"@[8] == 'o');
        assert("is_subgroup_of"@[9] == 'u' && "is_subgroup_of"@[10] == 'p');
        assert("is_subgroup_of"@[11] == '_' && "is_subgroup_of"@[12] == 'o');
        assert("is_subgroup_of"@[13] == 'f');
        assert("is_normal_subgroup_of"@.len() == 21 && "is_normal_subgroup_of"@[0] == 'i');
        assert("is_normal_subgroup_of"@[1] == 's' && "is_normal_subgroup_of"@[2] == '_');
        assert("is_normal_subgroup_of"@[3] == 'n' && "is_normal_subgroup_of"@[4] == 'o');
        assert("is_normal_subgroup_of"@[5] == 'r' && "is_normal_subgroup_of"@[6] == 'm');
        assert("is_normal_subgroup_of"@[7] == 'a' && "is_normal_subgroup_of"@[8] == 'l');
        assert("is_normal_subgroup_of"@[9] == '_' && "is_normal_subgroup_of"@[10] == 's');
        assert("is_normal_subgroup_of"@[11] == 'u' && "is_normal_subgroup_of"@[12] == 'b');
        assert("is_normal_subgroup_of"@[13] == 'g' && "is_normal_subgroup_of"@[14] == 'r');
        assert("is_normal_subgroup_of"@[15] == 'o' && "is_normal_subgroup_of"@[16] == 'u');
        assert("is_normal_subgroup_of"@[17] == 'p' && "is_normal_subgroup_of"@[18] == '_');
        assert("is_normal_subgroup_of"@[19] == 'o' && "is_normal_subgroup_of"@[20] == 'f');
        assert("is_isomorphic_to"@.len() == 16 && "is_isomorphic_to"@[0] == 'i');
        assert("is_isomorphic_to"@[1] == 's' && "is_isomorphic_to"@[2] == '_');
        assert("is_isomorphic_to"@[3] == 'i' && "is_isomorphic_to"@[4] == 's');
        assert("is_isomorphic_to"@[5] == 'o' && "is_isomorphic_to"@[6] == 'm');
        assert("is_isomorphic_to"@[7] == 'o' && "is_isomorphic_to"@[8] == 'r');
        assert("is_isomorphic_to"@[9] == 'p' && "is_isomorphic_to"@[10] == 'h');
        assert("is_isomorphic_to"@[11] == 'i' && "is_isomorphic_to"@[12] == 'c');
        assert("is_isomorphic_to"@[13] == '_' && "is_isomorphic_to"@[14] == 't');
        assert("is_isomorphic_to"@[15] == 'o');
        assert("is_homomorphic_to"@.len() == 17 && "is_homomorphic_to"@[0] == 'i');
        assert("is_homomorphic_to"@[1] == 's' && "is_homomorphic_to"@[2] == '_');
        assert("is_homomorphic_to"@[3] == 'h' && "is_homomorphic_to"@[4] == 'o');
        assert("is_homomorphic_to"@[5] == 'm' && "is_homomorphic_to"@[6] == 'o');
        assert("is_homomorphic_to"@[7] == 'm' && "is_homomorphic_to"@[8] == 'o');
        assert("is_homomorphic_to"@[9] == 'r' && "is_homomorphic_to"@[10] == 'p');
        assert("is_homomorphic_to"@[11] == 'h' && "is_homomorphic_to"@[12] == 'i');
        assert("is_homomorphic_to"@[13] == 'c' && "is_homomorphic_to"@[14] == '_');
        assert("is_homomorphic_to"@[15] == 't' && "is_homomorphic_to"@[16] == 'o');
        assert("is_quotient_of"@.len() == 14 && "is_quotient_of"@[0] == 'i');
        assert("is_quotient_of"@[1] == 's' && "is_quotient_of"@[2] == '_');
        assert("is_quotient_of"@[3] == 'q' && "is_quotient_of"@[4] == 'u');
        assert("is_quotient_of"@[5] == 'o' && "is_quotient_of"@[6] == 't');
        assert("is_quotient_of"@[7] == 'i' && "is_quotient_of"@[8] == 'e');
        assert("is_quotient_of"@[9] == 'n' && "is_quotient_of"@[10] == 't');
        assert("is_quotient_of"@[11] == '_' && "is_quotient_of"@[12] == 'o');
        assert("is_quotient_of"@[13] == 'f');
        assert("is_in_center_of"@.len() == 15 && "is_in_center_of"@[0] == 'i');
        assert("is_in_center_of"@[1] == 's' && "is_in_center_of"@[2] == '_');
        assert("is_in_center_of"@[3] == 'i' && "is_in_center_of"@[4] == 'n');
        assert("is_in_center_of"@[5] == '_' && "is_in_center_of"@[6] == 'c');
        assert("is_in_center_of"@[7] == 'e' && "is_in_center_of"@[8] == 'n');
        assert("is_in_center_of"@[9] == 't' && "is_in_center_of"@[10] == 'e');
        assert("is_in_center_of"@[11] == 'r' && "is_in_center_of"@[12] == '_');
        assert("is_in_center_of"@[13] == 'o' && "is_in_center_of"@[14] == 'f');
        assert("are_conjugate_in"@.len() == 16 && "are_conjugate_in"@[0] == 'a');
        assert("are_conjugate_in"@[1] == 'r' && "are_conjugate_in"@[2] == 'e');
        assert("are_conjugate_in"@[3] == '_' && "are_conjugate_in"@[4] == 'c');
        assert("are_conjugate_in"@[5] == 'o' && "are_conjugate_in"@[6] == 'n');
        assert("are_conjugate_in"@[7] == 'j' && "are_conjugate_in"@[8] == 'u');
        assert("are_conjugate_in"@[9] == 'g' && "are_conjugate_in"@[10] == 'a');
        assert("are_conjugate_in"@[11] == 't' && "are_conjugate_in"@[12] == 'e');
        assert("are_conjugate_in"@[13] == '_' && "are_conjugate_in"@[14] == 'i');
        assert("are_conjugate_in"@[15] == 'n');
        assert("is_subring_of"@.len() == 13 && "is_subring_of"@[0] == 'i');
        assert("is_subring_of"@[1] == 's' && "is_subring_of"@[2] == '_');
        assert("is_subring_of"@[3] == 's' && "is_subring_of"@[4] == 'u');
        assert("is_subring_of"@[5] == 'b' && "is_subring_of"@[6] == 'r');
        assert("is_subring_of"@[7] == 'i' && "is_subring_of"@[8] == 'n');
        assert("is_subring_of"@[9] == 'g' && "is_subring_of"@[10] == '_');
        assert("is_subring_of"@[11] == 'o' && "is_subring_of"@[12] == 'f');
        assert("is_ideal_of"@.len() == 11 && "is_ideal_of"@[0] == 'i' && "is_ideal_of"@[1] == 's');
        assert("is_ideal_of"@[2] == '_' && "is_ideal_of"@[3] == 'i' && "is_ideal_of"@[4] == 'd');
        assert("is_ideal_of"@[5] == 'e' && "is_ideal_of"@[6] == 'a' && "is_ideal_of"@[7] == 'l');
        assert("is_ideal_of"@[8] == '_' && "is_ideal_of"@[9] == 'o' && "is_ideal_of"@[10] == 'f');
        assert("is_open_in"@.len() == 10 && "is_open_in"@[0] == 'i' && "is_open_in"@[1] == 's');
        assert("is_open_in"@[2] == '_' && "is_open_in"@[3] == 'o' && "is_open_in"@[4] == 'p');
        assert("is_open_in"@[5] == 'e' && "is_open_in"@[6] == 'n' && "is_open_in"@[7] == '_');
        assert("is_open_in"@[8] == 'i' && "is_open_in"@[9] == 'n');
        assert("is_closed_in"@.len() == 12 && "is_closed_in"@[0] == 'i');
        assert("is_closed_in"@[1] == 's' && "is_closed_in"@[2] == '_' && "is_closed_in"@[3] == 'c');
        assert("is_closed_in"@[4] == 'l' && "is_closed_in"@[5] == 'o' && "is_closed_in"@[6] == 's');
        assert("is_closed_in"@[7] == 'e' && "is_closed_in"@[8] == 'd' && "is_closed_in"@[9] == '_');
        assert("is_closed_in"@[10] == 'i' && "is_closed_in"@[11] == 'n');
        assert("is_homeomorphic_to"@.len() == 18 && "is_homeomorphic_to"@[0] == 'i');
        assert("is_homeomorphic_to"@[1] == 's' && "is_homeomorphic_to"@[2] == '_');
        assert("is_homeomorphic_to"@[3] == 'h' && "is_homeomorphic_to"@[4] == 'o');
        assert("is_homeomorphic_to"@[5] == 'm' && "is_homeomorphic_to"@[6] == 'e');
        assert("is_homeomorphic_to"@[7] == 'o' && "is_homeomorphic_to"@[8] == 'm');
        assert("is_homeomorphic_to"@[9] == 'o' && "is_homeomorphic_to"@[10] == 'r');
        assert("is_homeomorphic_to"@[11] == 'p' && "is_homeomorphic_to"@[12] == 'h');
        assert("is_homeomorphic_to"@[13] == 'i' && "is_homeomorphic_to"@[14] == 'c');
        assert("is_homeomorphic_to"@[15] == '_' && "is_homeomorphic_to"@[16] == 't');
        assert("is_homeomorphic_to"@[17] == 'o');
        assert("is_dense"@.len() == 8 && "is_dense"@[0] == 'i' && "is_dense"@[1] == 's');
        assert("is_dense"@[2] == '_' && "is_dense"@[3] == 'd' && "is_dense"@[4] == 'e');
        assert("is_dense"@[5] == 'n' && "is_dense"@[6] == 's' && "is_dense"@[7] == 'e');
        assert("is_morphism_between"@.len() == 19 && "is_morphism_between"@[0] == 'i');
        assert("is_morphism_between"@[1] == 's' && "is_morphism_between"@[2] == '_');
        assert("is_morphism_between"@[3] == 'm' && "is_morphism_between"@[4] == 'o');
        assert("is_morphism_between"@[5] == 'r' && "is_morphism_between"@[6] == 'p');
        assert("is_morphism_between"@[7] == 'h' && "is_morphism_between"@[8] == 'i');
        assert("is_morphism_between"@[9] == 's' && "is_morphism_between"@[10] == 'm');
        assert("is_morphism_between"@[11] == '_' && "is_morphism_between"@[12] == 'b');
        assert("is_morphism_between"@[13] == 'e' && "is_morphism_between"@[14] == 't');
        assert("is_morphism_between"@[15] == 'w' && "is_morphism_between"@[16] == 'e');
        assert("is_morphism_between"@[17] == 'e' && "is_morphism_between"@[18] == 'n');
        assert("is_isomorphism_in"@.len() == 17 && "is_isomorphism_in"@[0] == 'i');
        assert("is_isomorphism_in"@[1] == 's' && "is_isomorphism_in"@[2] == '_');
        assert("is_isomorphism_in"@[3] == 'i' && "is_isomorphism_in"@[4] == 's');
        assert("is_isomorphism_in"@[5] == 'o' && "is_isomorphism_in"@[6] == 'm');
        assert("is_isomorphism_in"@[7] == 'o' && "is_isomorphism_in"@[8] == 'r');
        assert("is_isomorphism_in"@[9] == 'p' && "is_isomorphism_in"@[10] == 'h');
        assert("is_isomorphism_in"@[11] == 'i' && "is_isomorphism_in"@[12] == 's');
        assert("is_isomorphism_in"@[13] == 'm' && "is_isomorphism_in"@[14] == '_');
        assert("is_isomorphism_in"@[15] == 'i' && "is_isomorphism_in"@[16] == 'n');
        assert("is_monomorphism_in"@.len() == 18 && "is_monomorphism_in"@[0] == 'i');
        assert("is_monomorphism_in"@[1] == 's' && "is_monomorphism_in"@[2] == '_');
        assert("is_monomorphism_in"@[3] == 'm' && "is_monomorphism_in"@[4] == 'o');
        assert("is_monomorphism_in"@[5] == 'n' && "is_monomorphism_in"@[6] == 'o');
        assert("is_monomorphism_in"@[7] == 'm' && "is_monomorphism_in"@[8] == 'o');
        assert("is_monomorphism_in"@[9] == 'r' && "is_monomorphism_in"@[10] == 'p');
        assert("is_monomorphism_in"@[11] == 'h' && "is_monomorphism_in"@[12] == 'i');
        assert("is_monomorphism_in"@[13] == 's' && "is_monomorphism_in"@[14] == 'm');
        assert("is_monomorphism_in"@[15] == '_' && "is_monomorphism_in"@[16] == 'i');
        assert("is_monomorphism_in"@[17] == 'n');
        assert("is_epimorphism_in"@.len() == 17 && "is_epimorphism_in"@[0] == 'i');
        assert("is_epimorphism_in"@[1] == 's' && "is_epimorphism_in"@[2] == '_');
        assert("is_epimorphism_in"@[3] == 'e' && "is_epimorphism_in"@[4] == 'p');
        assert("is_epimorphism_in"@[5] == 'i' && "is_epimorphism_in"@[6] == 'm');
        assert("is_epimorphism_in"@[7] == 'o' && "is_epimorphism_in"@[8] == 'r');
        assert("is_epimorphism_in"@[9] == 'p' && "is_epimorphism_in"@[10] == 'h');
        assert("is_epimorphism_in"@[11] == 'i' && "is_epimorphism_in"@[12] == 's');
        assert("is_epimorphism_in"@[13] == 'm' && "is_epimorphism_in"@[14] == '_');
        assert("is_epimorphism_in"@[15] == 'i' && "is_epimorphism_in"@[16] == 'n');
        assert("is_natural_transformation_between"@.len() == 33);
        assert("is_natural_transformation_between"@[0] == 'i');
        assert("is_natural_transformation_between"@[1] == 's');
        assert("is_natural_transformation_between"@[2] == '_');
        assert("is_natural_transformation_between"@[3] == 'n');
        assert("is_natural_transformation_between"@[4] == 'a');
        assert("is_natural_transformation_between"@[5] == 't');
        assert("is_natural_transformation_between"@[6] == 'u');
        assert("is_natural_transformation_between"@[7] == 'r');
        assert("is_natural_transformation_between"@[8] == 'a');
        assert("is_natural_transformation_between"@[9] == 'l');
        assert("is_natural_transformation_between"@[10] == '_');
        assert("is_natural_transformation_between"@[11] == 't');
        assert("is_natural_transformation_between"@[12] == 'r');
        assert("is_natural_transformation_between"@[13] == 'a');
        assert("is_natural_transformation_between"@[14] == 'n');
        assert("is_natural_transformation_between"@[15] == 's');
        assert("is_natural_transformation_between"@[16] == 'f');
        assert("is_natural_transformation_between"@[17] == 'o');
        assert("is_natural_transformation_between"@[18] == 'r');
        assert("is_natural_transformation_between"@[19] == 'm');
        assert("is_natural_transformation_between"@[20] == 'a');
        assert("is_natural_transformation_between"@[21] == 't');
        assert("is_natural_transformation_between"@[22] == 'i');
        assert("is_natural_transformation_between"@[23] == 'o');
        assert("is_natural_transformation_between"@[24] == 'n');
        assert("is_natural_transformation_between"@[25] == '_');
        assert("is_natural_transformation_between"@[26] == 'b');
        assert("is_natural_transformation_between"@[27] == 'e');
        assert("is_natural_transformation_between"@[28] == 't');
        assert("is_natural_transformation_between"@[29] == 'w');
        assert("is_natural_transformation_between"@[30] == 'e');
        assert("is_natural_transformation_between"@[31] == 'e');
        assert("is_natural_transformation_between"@[32] == 'n');
        assert("is_adjunction_between"@.len() == 21 && "is_adjunction_between"@[0] == 'i');
        assert("is_adjunction_between"@[1] == 's' && "is_adjunction_between"@[2] == '_');
        assert("is_adjunction_between"@[3] == 'a' && "is_adjunction_between"@[4] == 'd');
        assert("is_adjunction_between"@[5] == 'j' && "is_adjunction_between"@[6] == 'u');
        assert("is_adjunction_between"@[7] == 'n' && "is_adjunction_between"@[8] == 'c');
        assert("is_adjunction_between"@[9] == 't' && "is_adjunction_between"@[10] == 'i');
        assert("is_adjunction_between"@[11] == 'o' && "is_adjunction_between"@[12] == 'n');
        assert("is_adjunction_between"@[13] == '_' && "is_adjunction_between"@[14] == 'b');
        assert("is_adjunction_between"@[15] == 'e' && "is_adjunction_between"@[16] == 't');
        assert("is_adjunction_between"@[17] == 'w' && "is_adjunction_between"@[18] == 'e');
        assert("is_adjunction_between"@[19] == 'e' && "is_adjunction_between"@[20] == 'n');
        assert("composes_to"@.len() == 11 && "composes_to"@[0] == 'c' && "composes_to"@[1] == 'o');
        assert("composes_to"@[2] == 'm' && "composes_to"@[3] == 'p' && "composes_to"@[4] == 'o');
        assert("composes_to"@[5] == 's' && "composes_to"@[6] == 'e' && "composes_to"@[7] == 's');
        assert("composes_to"@[8] == '_' && "composes_to"@[9] == 't' && "composes_to"@[10] == 'o');
        assert("implies"@.len() == 7 && "implies"@[0] == 'i' && "implies"@[1] == 'm');
        assert("implies"@[2] == 'p' && "implies"@[3] == 'l' && "implies"@[4] == 'i');
        assert("implies"@[5] == 'e' && "implies"@[6] == 's');
        assert("iff"@.len() == 3 && "iff"@[0] == 'i' && "iff"@[1] == 'f' && "iff"@[2] == 'f');
    }

    /// Reading what was written gives the same value back, custom text
    /// included.
    pub proof fn lemma_decode_encode(self)
        ensures
            Self::decode(self.encode()) == Some(self),
    {
        if !(self is Custom) {
            self.lemma_parse_tag();
        }
    }

    /// Only what writing gives is read: a value that stands for the relation is
    /// the very value that is written for it.
    pub proof fn lemma_encode_decode(value: Json)
        requires
            Self::decode(value) is Some,
        ensures
            Self::decode(value)->Some_0.encode() == value,
    {
        match value {
            Json::Object(fields) => {
                assert(fields =~= Seq::empty().push(("custom"@, Json::Text(fields[0].1->Text_0))));
            },
            _ => {},
        }
    }
}

impl RelationOperatorNode {
    /// The fixed word of a case of the vocabulary; nothing for a custom one.
    fn fixed_word(&self) -> (word: Option<&'static str>)
        ensures
            word is None == (self@ is Custom),
            word matches Some(w) ==> w@ == self@.tag(),
    {
        match self {
            RelationOperatorNode::IsEqual => Some("is_equal"),
            RelationOperatorNode::Equal => Some("equal"),
            RelationOperatorNode::NotEqual => Some("not_equal"),
            RelationOperatorNode::Greater => Some("greater"),
            RelationOperatorNode::Less => Some("less"),
            RelationOperatorNode::GreaterEqual => Some("greater_equal"),
            RelationOperatorNode::LessEqual => Some("less_equal"),
            RelationOperatorNode::Collinear => Some("collinear"),
            RelationOperatorNode::Perpendicular => Some("perpendicular"),
            RelationOperatorNode::Equivalent => Some("equivalent"),
            RelationOperatorNode::Similar => Some("similar"),
            RelationOperatorNode::Congruent => Some("congruent"),
            RelationOperatorNode::ElementOf => Some("element_of"),
            RelationOperatorNode::NotElementOf => Some("not_element_of"),
            RelationOperatorNode::SubsetOf => Some("subset_of"),
            RelationOperatorNode::ProperSubsetOf => Some("proper_subset_of"),
            RelationOperatorNode::SupersetOf => Some("superset_of"),
            RelationOperatorNode::ProperSupersetOf => Some("proper_superset_of"),
            RelationOperatorNode::Disjoint => Some("disjoint"),
            RelationOperatorNode::Union => Some("union"),
            RelationOperatorNode::Intersection => Some("intersection"),
            RelationOperatorNode::CartesianProduct => Some("cartesian_product"),
            RelationOperatorNode::SameCardinality => Some("same_cardinality"),
            RelationOperatorNode::Divides => Some("divides"),
            RelationOperatorNode::NotDivides => Some("not_divides"),
            RelationOperatorNode::CongruentMod => Some("congruent_mod"),
            RelationOperatorNode::NotCongruentMod => Some("not_congruent_mod"),
            RelationOperatorNode::AreCoprime => Some("are_coprime"),
            RelationOperatorNode::IsSubgroupOf => Some("is_subgroup_of"),
            RelationOperatorNode::IsNormalSubgroupOf => Some("is_normal_subgroup_of"),
            RelationOperatorNode::IsIsomorphicTo => Some("is_isomorphic_to"),
            RelationOperatorNode::IsHomomorphicTo => Some("is_homomorphic_to"),
            RelationOperatorNode::IsQuotientOf => Some("is_quotient_of"),
            RelationOperatorNode::IsInCenterOf => Some("is_in_center_of"),
            RelationOperatorNode::AreConjugateIn => Some("are_conjugate_in"),
            RelationOperatorNode::IsSubringOf => Some("is_subring_of"),
            RelationOperatorNode::IsIdealOf => Some("is_ideal_of"),
            RelationOperatorNode::IsOpenIn => Some("is_open_in"),
            RelationOperatorNode::IsClosedIn => Some("is_closed_in"),
            RelationOperatorNode::IsHomeomorphicTo => Some("is_homeomorphic_to"),
            RelationOperatorNode::IsDense => Some("is_dense"),
            RelationOperatorNode::IsMorphismBetween => Some("is_morphism_between"),
            RelationOperatorNode::IsIsomorphismIn => Some("is_isomorphism_in"),
            RelationOperatorNode::IsMonomorphismIn => Some("is_monomorphism_in"),
            RelationOperatorNode::IsEpimorphismIn => Some("is_epimorphism_in"),
            RelationOperatorNode::IsNaturalTransformationBetween => {
                Some("is_natural_transformation_between")
            },
            RelationOperatorNode::IsAdjunctionBetween => Some("is_adjunction_between"),
            RelationOperatorNode::ComposesTo => Some("composes_to"),
            RelationOperatorNode::Implies => Some("implies"),
            RelationOperatorNode::Iff => Some("iff"),
            RelationOperatorNode::Custom(_) => None,
        }
    }

    /// The case of the vocabulary that `word` stands for, if any.
    fn from_fixed_word(word: &str) -> (found: Option<RelationOperatorNode>)
        ensures
            found is Some == RelationOperatorModel::parse(word@) is Some,
            found matches Some(case) ==> RelationOperatorModel::parse(word@) == Some(case@),
    {
        if str_eq(word, "is_equal") {
            Some(RelationOperatorNode::IsEqual)
        } else if str_eq(word, "equal") {
            Some(RelationOperatorNode::Equal)
        } else if str_eq(word, "not_equal") {
            Some(RelationOperatorNode::NotEqual)
        } else if str_eq(word, "greater") {
            Some(RelationOperatorNode::Greater)
        } else if str_eq(word, "less") {
            Some(RelationOperatorNode::Less)
        } else if str_eq(word, "greater_equal") {
            Some(RelationOperatorNode::GreaterEqual)
        } else if str_eq(word, "less_equal") {
            Some(RelationOperatorNode::LessEqual)
        } else if str_eq(word, "collinear") {
            Some(RelationOperatorNode::Collinear)
        } else if str_eq(word, "perpendicular") {
            Some(RelationOperatorNode::Perpendicular)
        } else if str_eq(word, "equivalent") {
            Some(RelationOperatorNode::Equivalent)
        } else if str_eq(word, "similar") {
            Some(RelationOperatorNode::Similar)
        } else if str_eq(word, "congruent") {
            Some(RelationOperatorNode::Congruent)
        } else if str_eq(word, "element_of") {
            Some(RelationOperatorNode::ElementOf)
        } else if str_eq(word, "not_element_of") {
            Some(RelationOperatorNode::NotElementOf)
        } else if str_eq(word, "subset_of") {
            Some(RelationOperatorNode::SubsetOf)
        } else if str_eq(word, "proper_subset_of") {
            Some(RelationOperatorNode::ProperSubsetOf)
        } else if str_eq(word, "superset_of") {
            Some(RelationOperatorNode::SupersetOf)
        } else if str_eq(word, "proper_superset_of") {
            Some(RelationOperatorNode::ProperSupersetOf)
        } else if str_eq(word, "disjoint") {
            Some(RelationOperatorNode::Disjoint)
        } else if str_eq(word, "union") {
            Some(RelationOperatorNode::Union)
        } else if str_eq(word, "intersection") {
            Some(RelationOperatorNode::Intersection)
        } else if str_eq(word, "cartesian_product") {
            Some(RelationOperatorNode::CartesianProduct)
        } else if str_eq(word, "same_cardinality") {
            Some(RelationOperatorNode::SameCardinality)
        } else if str_eq(word, "divides") {
            Some(RelationOperatorNode::Divides)
        } else if str_eq(word, "not_divides") {
            Some(RelationOperatorNode::NotDivides)
        } else if str_eq(word, "congruent_mod") {
            Some(RelationOperatorNode::CongruentMod)
        } else if str_eq(word, "not_congruent_mod") {
            Some(RelationOperatorNode::NotCongruentMod)
        } else if str_eq(word, "are_coprime") {
            Some(RelationOperatorNode::AreCoprime)
        } else if str_eq(word, "is_subgroup_of") {
            Some(RelationOperatorNode::IsSubgroupOf)
        } else if str_eq(word, "is_normal_subgroup_of") {
            Some(RelationOperatorNode::IsNormalSubgroupOf)
        } else if str_eq(word, "is_isomorphic_to") {
            Some(RelationOperatorNode::IsIsomorphicTo)
        } else if str_eq(word, "is_homomorphic_to") {
            Some(RelationOperatorNode::IsHomomorphicTo)
        } else if str_eq(word, "is_quotient_of") {
            Some(RelationOperatorNode::IsQuotientOf)
        } else if str_eq(word, "is_in_center_of") {
            Some(RelationOperatorNode::IsInCenterOf)
        } else if str_eq(word, "are_conjugate_in") {
            Some(RelationOperatorNode::AreConjugateIn)
        } else if str_eq(word, "is_subring_of") {
            Some(RelationOperatorNode::IsSubringOf)
        } else if str_eq(word, "is_ideal_of") {
            Some(RelationOperatorNode::IsIdealOf)
        } else if str_eq(word, "is_open_in") {
            Some(RelationOperatorNode::IsOpenIn)
        } else if str_eq(word, "is_closed_in") {
            Some(RelationOperatorNode::IsClosedIn)
        } else if str_eq(word, "is_homeomorphic_to") {
            Some(RelationOperatorNode::IsHomeomorphicTo)
        } else if str_eq(word, "is_dense") {
            Some(RelationOperatorNode::IsDense)
        } else if str_eq(word, "is_morphism_between") {
            Some(RelationOperatorNode::IsMorphismBetween)
        } else if str_eq(word, "is_isomorphism_in") {
            Some(RelationOperatorNode::IsIsomorphismIn)
        } else if str_eq(word, "is_monomorphism_in") {
            Some(RelationOperatorNode::IsMonomorphismIn)
        } else if str_eq(word, "is_epimorphism_in") {
            Some(RelationOperatorNode::IsEpimorphismIn)
        } else if str_eq(word, "is_natural_transformation_between") {
            Some(RelationOperatorNode::IsNaturalTransformationBetween)
        } else if str_eq(word, "is_adjunction_between") {
            Some(RelationOperatorNode::IsAdjunctionBetween)
        } else if str_eq(word, "composes_to") {
            Some(RelationOperatorNode::ComposesTo)
        } else if str_eq(word, "implies") {
            Some(RelationOperatorNode::Implies)
        } else if str_eq(word, "iff") {
            Some(RelationOperatorNode::Iff)
        } else {
            None
        }
    }

    /// Writes the relation in the interchange form.
    pub fn to_interchange(&self) -> (value: InterchangeValue)
        ensures
            value@ == self@.encode(),
    {
        match self.fixed_word() {
            Some(word) => text_value(word),
            None => match self {
                RelationOperatorNode::Custom(text) => {
                    let mut fields: Vec<(String, InterchangeValue)> = Vec::new();
                    push_field(&mut fields, "custom", text_value(text.as_str()));
                    assert(fields_view(Seq::<(String, InterchangeValue)>::empty())
                        =~= Seq::empty());
                    finish_object(fields)
                },
                _ => InterchangeValue::Null,
            },
        }
    }

    /// Reads the relation from the interchange form.
    pub fn from_interchange(value: &InterchangeValue) -> (found: Option<RelationOperatorNode>)
        ensures
            found is Some == RelationOperatorModel::decode(value@) is Some,
            found matches Some(case) ==> RelationOperatorModel::decode(value@) == Some(case@),
    {
        match value {
            InterchangeValue::Text(word) => Self::from_fixed_word(word.as_str()),
            InterchangeValue::Object(fields) => {
                assert(value@->Object_0 =~= fields_view(fields@));
                if fields.len() != 1 {
                    return None;
                }
                match text_at(fields, 0, "custom") {
                    Some(text) => Some(RelationOperatorNode::Custom(text.clone())),
                    None => None,
                }
            },
            _ => None,
        }
    }
}

impl UnaryRelationOperatorModel {
    /// The word for the property: the fixed word of a case of the vocabulary, or the
    /// text of a custom one, unchanged.
    pub open spec fn tag(self) -> Seq<char> {
        match self {
            UnaryRelationOperatorModel::IsPrime => "is_prime"@,
            UnaryRelationOperatorModel::IsComposite => "is_composite"@,
            UnaryRelationOperatorModel::HasOrderInGroup => "has_order_in_group"@,
            UnaryRelationOperatorModel::HasUniqueInverse => "has_unique_inverse"@,
            UnaryRelationOperatorModel::IsPrimeIdeal => "is_prime_ideal"@,
            UnaryRelationOperatorModel::IsMaximalIdeal => "is_maximal_ideal"@,
            UnaryRelationOperatorModel::IsPrincipalIdeal => "is_principal_ideal"@,
            UnaryRelationOperatorModel::IsUnit => "is_unit"@,
            UnaryRelationOperatorModel::IsIrreducible => "is_irreducible"@,
            UnaryRelationOperatorModel::IsPrimeElement => "is_prime_element"@,
            UnaryRelationOperatorModel::IsField => "is_field"@,
            UnaryRelationOperatorModel::IsIntegralDomain => "is_integral_domain"@,
            UnaryRelationOperatorModel::IsUFD => "is_ufd"@,
            UnaryRelationOperatorModel::IsPID => "is_pid"@,
            UnaryRelationOperatorModel::IsCompact => "is_compact"@,
            UnaryRelationOperatorModel::IsConnected => "is_connected"@,
            UnaryRelationOperatorModel::IsContinuous => "is_continuous"@,
            UnaryRelationOperatorModel::Converges => "converges"@,
            UnaryRelationOperatorModel::IsHausdorff => "is_hausdorff"@,
            UnaryRelationOperatorModel::IsObjectIn => "is_object_in"@,
            UnaryRelationOperatorModel::IsEndomorphismIn => "is_endomorphism_in"@,
            UnaryRelationOperatorModel::IsAutomorphismIn => "is_automorphism_in"@,
            UnaryRelationOperatorModel::Complement => "complement"@,
            UnaryRelationOperatorModel::PowerSet => "power_set"@,
            UnaryRelationOperatorModel::Custom(text) => text,
        }
    }

    /// The case of the vocabulary that `word` stands for, if any. Never a
    /// custom one.
    pub open spec fn parse(word: Seq<char>) -> Option<UnaryRelationOperatorModel> {
        if word == "is_prime"@ {
            Some(UnaryRelationOperatorModel::IsPrime)
        } else if word == "is_composite"@ {
            Some(UnaryRelationOperatorModel::IsComposite)
        } else if word == "has_order_in_group"@ {
            Some(UnaryRelationOperatorModel::HasOrderInGroup)
        } else if word == "has_unique_inverse"@ {
            Some(UnaryRelationOperatorModel::HasUniqueInverse)
        } else if word == "is_prime_ideal"@ {
            Some(UnaryRelationOperatorModel::IsPrimeIdeal)
        } else if word == "is_maximal_ideal"@ {
            Some(UnaryRelationOperatorModel::IsMaximalIdeal)
        } else if word == "is_principal_ideal"@ {
            Some(UnaryRelationOperatorModel::IsPrincipalIdeal)
        } else if word == "is_unit"@ {
            Some(UnaryRelationOperatorModel::IsUnit)
        } else if word == "is_irreducible"@ {
            Some(UnaryRelationOperatorModel::IsIrreducible)
        } else if word == "is_prime_element"@ {
            Some(UnaryRelationOperatorModel::IsPrimeElement)
        } else if word == "is_field"@ {
            Some(UnaryRelationOperatorModel::IsField)
        } else if word == "is_integral_domain"@ {
            Some(UnaryRelationOperatorModel::IsIntegralDomain)
        } else if word == "is_ufd"@ {
            Some(UnaryRelationOperatorModel::IsUFD)
        } else if word == "is_pid"@ {
            Some(UnaryRelationOperatorModel::IsPID)
        } else if word == "is_compact"@ {
            Some(UnaryRelationOperatorModel::IsCompact)
        } else if word == "is_connected"@ {
            Some(UnaryRelationOperatorModel::IsConnected)
        } else if word == "is_continuous"@ {
            Some(UnaryRelationOperatorModel::IsContinuous)
        } else if word == "converges"@ {
            Some(UnaryRelationOperatorModel::Converges)
        } else if word == "is_hausdorff"@ {
            Some(UnaryRelationOperatorModel::IsHausdorff)
        } else if word == "is_object_in"@ {
            Some(UnaryRelationOperatorModel::IsObjectIn)
        } else if word == "is_endomorphism_in"@ {
            Some(UnaryRelationOperatorModel::IsEndomorphismIn)
        } else if word == "is_automorphism_in"@ {
            Some(UnaryRelationOperatorModel::IsAutomorphismIn)
        } else if word == "complement"@ {
            Some(UnaryRelationOperatorModel::Complement)
        } else if word == "power_set"@ {
            Some(UnaryRelationOperatorModel::PowerSet)
        } else {
            None
        }
    }

    /// How the property is written in the interchange form: a case of the vocabulary
    /// as its word, a custom one as an object that holds its text.
    pub open spec fn encode(self) -> Json {
        match self {
            UnaryRelationOperatorModel::Custom(text) => Json::Object(
                Seq::empty().push(("custom"@, Json::Text(text))),
            ),
            _ => Json::Text(self.tag()),
        }
    }

    /// What an interchange value stands for, if it is of one of the two forms
    /// of [`Self::encode`].
    pub open spec fn decode(value: Json) -> Option<UnaryRelationOperatorModel> {
        match value {
            Json::Text(word) => Self::parse(word),
            Json::Object(fields) => if fields.len() == 1 && text_field(
                fields,
                0,
                "custom"@,
            ) {
                Some(UnaryRelationOperatorModel::Custom(fields[0].1->Text_0))
            } else {
                None
            },
            _ => None,
        }
    }

    /// No two cases of the vocabulary share a word.
    pub proof fn lemma_parse_tag(self)
        requires
            !(self is Custom),
        ensures
            Self::parse(self.tag()) == Some(self),
    {
        reveal_strlit("is_prime");
        reveal_strlit("is_composite");
        reveal_strlit("has_order_in_group");
        reveal_strlit("has_unique_inverse");
        reveal_strlit("is_prime_ideal");
        reveal_strlit("is_maximal_ideal");
        reveal_strlit("is_principal_ideal");
        reveal_strlit("is_unit");
        reveal_strlit("is_irreducible");
        reveal_strlit("is_prime_element");
        reveal_strlit("is_field");
        reveal_strlit("is_integral_domain");
        reveal_strlit("is_ufd");
        reveal_strlit("is_pid");
        reveal_strlit("is_compact");
        reveal_strlit("is_connected");
        reveal_strlit("is_continuous");
        reveal_strlit("converges");
        reveal_strlit("is_hausdorff");
        reveal_strlit("is_object_in");
        reveal_strlit("is_endomorphism_in");
        reveal_strlit("is_automorphism_in");
        reveal_strlit("complement");
        reveal_strlit("power_set");
        assert("is_prime"@.len() == 8 && "is_prime"@[0] == 'i' && "is_prime"@[1] == 's');
        assert("is_prime"@[2] == '_' && "is_prime"@[3] == 'p' && "is_prime"@[4] == 'r');
        assert("is_prime"@[5] == 'i' && "is_prime"@[6] == 'm' && "is_prime"@[7] == 'e');
        assert("is_composite"@.len() == 12 && "is_composite"@[0] == 'i');
        assert("is_composite"@[1] == 's' && "is_composite"@[2] == '_' && "is_composite"@[3] == 'c');
        assert("is_composite"@[4] == 'o' && "is_composite"@[5] == 'm' && "is_composite"@[6] == 'p');
        assert("is_composite"@[7] == 'o' && "is_composite"@[8] == 's' && "is_composite"@[9] == 'i');
        assert("is_composite"@[10] == 't' && "is_composite"@[11] == 'e');
        assert("has_order_in_group"@.len() == 18 && "has_order_in_group"@[0] == 'h');
        assert("has_order_in_group"@[1] == 'a' && "has_order_in_group"@[2] == 's');
        assert("has_order_in_group"@[3] == '_' && "has_order_in_group"@[4] == 'o');
        assert("has_order_in_group"@[5] == 'r' && "has_order_in_group"@[6] == 'd');
        assert("has_order_in_group"@[7] == 'e' && "has_order_in_group"@[8] == 'r');
        assert("has_order_in_group"@[9] == '_' && "has_order_in_group"@[10] == 'i');
        assert("has_order_in_group"@[11] == 'n' && "has_order_in_group"@[12] == '_');
        assert("has_order_in_group"@[13] == 'g' && "has_order_in_group"@[14] == 'r');
        assert("has_order_in_group"@[15] == 'o' && "has_order_in_group"@[16] == 'u');
        assert("has_order_in_group"@[17] == 'p');
        assert("has_unique_inverse"@.len() == 18 && "has_unique_inverse"@[0] == 'h');
        assert("has_unique_inverse"@[1] == 'a' && "has_unique_inverse"@[2] == 's');
        assert("has_unique_inverse"@[3] == '_' && "has_unique_inverse"@[4] == 'u');
        assert("has_unique_inverse"@[5] == 'n' && "has_unique_inverse"@[6] == 'i');
        assert("has_unique_inverse"@[7] == 'q' && "has_unique_inverse"@[8] == 'u');
        assert("has_unique_inverse"@[9] == 'e' && "has_unique_inverse"@[10] == '_');
        assert("has_unique_inverse"@[11] == 'i' && "has_unique_inverse"@[12] == 'n');
        assert("has_unique_inverse"@[13] == 'v' && "has_unique_inverse"@[14] == 'e');
        assert("has_unique_inverse"@[15] == 'r' && "has_unique_inverse"@[16] == 's');
        assert("has_unique_inverse"@[17] == 'e');
        assert("is_prime_ideal"@.len() == 14 && "is_prime_ideal"@[0] == 'i');
        assert("is_prime_ideal"@[1] == 's' && "is_prime_ideal"@[2] == '_');
        assert("is_prime_ideal"@[3] == 'p' && "is_prime_ideal"@[4] == 'r');
        assert("is_prime_ideal"@[5] == 'i' && "is_prime_ideal"@[6] == 'm');
        assert("is_prime_ideal"@[7] == 'e' && "is_prime_ideal"@[8] == '_');
        assert("is_prime_ideal"@[9] == 'i' && "is_prime_ideal"@[10] == 'd');
        assert("is_prime_ideal"@[11] == 'e' && "is_prime_ideal"@[12] == 'a');
        assert("is_prime_ideal"@[13] == 'l');
        assert("is_maximal_ideal"@.len() == 16 && "is_maximal_ideal"@[0] == 'i');
        assert("is_maximal_ideal"@[1] == 's' && "is_maximal_ideal"@[2] == '_');
        assert("is_maximal_ideal"@[3] == 'm' && "is_maximal_ideal"@[4] == 'a');
        assert("is_maximal_ideal"@[5] == 'x' && "is_maximal_ideal"@[6] == 'i');
        assert("is_maximal_ideal"@[7] == 'm' && "is_maximal_ideal"@[8] == 'a');
        assert("is_maximal_ideal"@[9] == 'l' && "is_maximal_ideal"@[10] == '_');
        assert("is_maximal_ideal"@[11] == 'i' && "is_maximal_ideal"@[12] == 'd');
        assert("is_maximal_ideal"@[13] == 'e' && "is_maximal_ideal"@[14] == 'a');
        assert("is_maximal_ideal"@[15] == 'l');
        assert("is_principal_ideal"@.len() == 18 && "is_principal_ideal"@[0] == 'i');
        assert("is_principal_ideal"@[1] == 's' && "is_principal_ideal"@[2] == '_');
        assert("is_principal_ideal"@[3] == 'p' && "is_principal_ideal"@[4] == 'r');
        assert("is_principal_ideal"@[5] == 'i' && "is_principal_ideal"@[6] == 'n');
        assert("is_principal_ideal"@[7] == 'c' && "is_principal_ideal"@[8] == 'i');
        assert("is_principal_ideal"@[9] == 'p' && "is_principal_ideal"@[10] == 'a');
        assert("is_principal_ideal"@[11] == 'l' && "is_principal_ideal"@[12] == '_');
        assert("is_principal_ideal"@[13] == 'i' && "is_principal_ideal"@[14] == 'd');
        assert("is_principal_ideal"@[15] == 'e' && "is_principal_ideal"@[16] == 'a');
        assert("is_principal_ideal"@[17] == 'l');
        assert("is_unit"@.len() == 7 && "is_unit"@[0] == 'i' && "is_unit"@[1] == 's');
        assert("is_unit"@[2] == '_' && "is_unit"@[3] == 'u' && "is_unit"@[4] == 'n');
        assert("is_unit"@[5] == 'i' && "is_unit"@[6] == 't');
        assert("is_irreducible"@.len() == 14 && "is_irreducible"@[0] == 'i');
        assert("is_irreducible"@[1] == 's' && "is_irreducible"@[2] == '_');
        assert("is_irreducible"@[3] == 'i' && "is_irreducible"@[4] == 'r');
        assert("is_irreducible"@[5] == 'r' && "is_irreducible"@[6] == 'e');
        assert("is_irreducible"@[7] == 'd' && "is_irreducible"@[8] == 'u');
        assert("is_irreducible"@[9] == 'c' && "is_irreducible"@[10] == 'i');
        assert("is_irreducible"@[11] == 'b' && "is_irreducible"@[12] == 'l');
        assert("is_irreducible"@[13] == 'e');
        assert("is_prime_element"@.len() == 16 && "is_prime_element"@[0] == 'i');
        assert("is_prime_element"@[1] == 's' && "is_prime_element"@[2] == '_');
        assert("is_prime_element"@[3] == 'p' && "is_prime_element"@[4] == 'r');
        assert("is_prime_element"@[5] == 'i' && "is_prime_element"@[6] == 'm');
        assert("is_prime_element"@[7] == 'e' && "is_prime_element"@[8] == '_');
        assert("is_prime_element"@[9] == 'e' && "is_prime_element"@[10] == 'l');
        assert("is_prime_element"@[11] == 'e' && "is_prime_element"@[12] == 'm');
        assert("is_prime_element"@[13] == 'e' && "is_prime_element"@[14] == 'n');
        assert("is_prime_element"@[15] == 't');
        assert("is_field"@.len() == 8 && "is_field"@[0] == 'i' && "is_field"@[1] == 's');
        assert("is_field"@[2] == '_' && "is_field"@[3] == 'f' && "is_field"@[4] == 'i');
        assert("is_field"@[5] == 'e' && "is_field"@[6] == 'l' && "is_field"@[7] == 'd');
        assert("is_integral_domain"@.len() == 18 && "is_integral_domain"@[0] == 'i');
        assert("is_integral_domain"@[1] == 's' && "is_integral_domain"@[2] == '_');
        assert("is_integral_domain"@[3] == 'i' && "is_integral_domain"@[4] == 'n');
        assert("is_integral_domain"@[5] == 't' && "is_integral_domain"@[6] == 'e');
        assert("is_integral_domain"@[7] == 'g' && "is_integral_domain"@[8] == 'r');
        assert("is_integral_domain"@[9] == 'a' && "is_integral_domain"@[10] == 'l');
        assert("is_integral_domain"@[11] == '_' && "is_integral_domain"@[12] == 'd');
        assert("is_integral_domain"@[13] == 'o' && "is_integral_domain"@[14] == 'm');
        assert("is_integral_domain"@[15] == 'a' && "is_integral_domain"@[16] == 'i');
        assert("is_integral_domain"@[17] == 'n');
        assert("is_ufd"@.len() == 6 && "is_ufd"@[0] == 'i' && "is_ufd"@[1] == 's');
        assert("is_ufd"@[2] == '_' && "is_ufd"@[3] == 'u' && "is_ufd"@[4] == 'f');
        assert("is_ufd"@[5] == 'd');
        assert("is_pid"@.len() == 6 && "is_pid"@[0] == 'i' && "is_pid"@[1] == 's');
        assert("is_pid"@[2] == '_' && "is_pid"@[3] == 'p' && "is_pid"@[4] == 'i');
        assert("is_pid"@[5] == 'd');
        assert("is_compact"@.len() == 10 && "is_compact"@[0] == 'i' && "is_compact"@[1] == 's');
        assert("is_compact"@[2] == '_' && "is_compact"@[3] == 'c' && "is_compact"@[4] == 'o');
        assert("is_compact"@[5] == 'm' && "is_compact"@[6] == 'p' && "is_compact"@[7] == 'a');
        assert("is_compact"@[8] == 'c' && "is_compact"@[9] == 't');
        assert("is_connected"@.len() == 12 && "is_connected"@[0] == 'i');
        assert("is_connected"@[1] == 's' && "is_connected"@[2] == '_' && "is_connected"@[3] == 'c');
        assert("is_connected"@[4] == 'o' && "is_connected"@[5] == 'n' && "is_connected"@[6] == 'n');
        assert("is_connected"@[7] == 'e' && "is_connected"@[8] == 'c' && "is_connected"@[9] == 't');
        assert("is_connected"@[10] == 'e' && "is_connected"@[11] == 'd');
        assert("is_continuous"@.len() == 13 && "is_continuous"@[0] == 'i');
        assert("is_continuous"@[1] == 's' && "is_continuous"@[2] == '_');
        assert("is_continuous"@[3] == 'c' && "is_continuous"@[4] == 'o');
        assert("is_continuous"@[5] == 'n' && "is_continuous"@[6] == 't');
        assert("is_continuous"@[7] == 'i' && "is_continuous"@[8] == 'n');
        assert("is_continuous"@[9] == 'u' && "is_continuous"@[10] == 'o');
        assert("is_continuous"@[11] == 'u' && "is_continuous"@[12] == 's');
        assert("converges"@.len() == 9 && "converges"@[0] == 'c' && "converges"@[1] == 'o');
        assert("converges"@[2] == 'n' && "converges"@[3] == 'v' && "converges"@[4] == 'e');
        assert("converges"@[5] == 'r' && "converges"@[6] == 'g' && "converges"@[7] == 'e');
        assert("converges"@[8] == 's');
        assert("is_hausdorff"@.len() == 12 && "is_hausdorff"@[0] == 'i');
        assert("is_hausdorff"@[1] == 's' && "is_hausdorff"@[2] == '_' && "is_hausdorff"@[3] == 'h');
        assert("is_hausdorff"@[4] == 'a' && "is_hausdorff"@[5] == 'u' && "is_hausdorff"@[6] == 's');
        assert("is_hausdorff"@[7] == 'd' && "is_hausdorff"@[8] == 'o' && "is_hausdorff"@[9] == 'r');
        assert("is_hausdorff"@[10] == 'f' && "is_hausdorff"@[11] == 'f');
        assert("is_object_in"@.len() == 12 && "is_object_in"@[0] == 'i');
        assert("is_object_in"@[1] == 's' && "is_object_in"@[2] == '_' && "is_object_in"@[3] == 'o');
        assert("is_object_in"@[4] == 'b' && "is_object_in"@[5] == 'j' && "is_object_in"@[6] == 'e');
        assert("is_object_in"@[7] == 'c' && "is_object_in"@[8] == 't' && "is_object_in"@[9] == '_');
        assert("is_object_in"@[10] == 'i' && "is_object_in"@[11] == 'n');
        assert("is_endomorphism_in"@.len() == 18 && "is_endomorphism_in"@[0] == 'i');
        assert("is_endomorphism_in"@[1] == 's' && "is_endomorphism_in"@[2] == '_');
        assert("is_endomorphism_in"@[3] == 'e' && "is_endomorphism_in"@[4] == 'n');
        assert("is_endomorphism_in"@[5] == 'd' && "is_endomorphism_in"@[6] == 'o');
        assert("is_endomorphism_in"@[7] == 'm' && "is_endomorphism_in"@[8] == 'o');
        assert("is_endomorphism_in"@[9] == 'r' && "is_endomorphism_in"@[10] == 'p');
        assert("is_endomorphism_in"@[11] == 'h' && "is_endomorphism_in"@[12] == 'i');
        assert("is_endomorphism_in"@[13] == 's' && "is_endomorphism_in"@[14] == 'm');
        assert("is_endomorphism_in"@[15] == '_' && "is_endomorphism_in"@[16] == 'i');
        assert("is_endomorphism_in"@[17] == 'n');
        assert("is_automorphism_in"@.len() == 18 && "is_automorphism_in"@[0] == 'i');
        assert("is_automorphism_in"@[1] == 's' && "is_automorphism_in"@[2] == '_');
        assert("is_automorphism_in"@[3] == 'a' && "is_automorphism_in"@[4] == 'u');
        assert("is_automorphism_in"@[5] == 't' && "is_automorphism_in"@[6] == 'o');
        assert("is_automorphism_in"@[7] == 'm' && "is_automorphism_in"@[8] == 'o');
        assert("is_automorphism_in"@[9] == 'r' && "is_automorphism_in"@[10] == 'p');
        assert("is_automorphism_in"@[11] == 'h' && "is_automorphism_in"@[12] == 'i');
        assert("is_automorphism_in"@[13] == 's' && "is_automorphism_in"@[14] == 'm');
        assert("is_automorphism_in"@[15] == '_' && "is_automorphism_in"@[16] == 'i');
        assert("is_automorphism_in"@[17] == 'n');
        assert("complement"@.len() == 10 && "complement"@[0] == 'c' && "complement"@[1] == 'o');
        assert("complement"@[2] == 'm' && "complement"@[3] == 'p' && "complement"@[4] == 'l');
        assert("complement"@[5] == 'e' && "complement"@[6] == 'm' && "complement"@[7] == 'e');
        assert("complement"@[8] == 'n' && "complement"@[9] == 't');
        assert("power_set"@.len() == 9 && "power_set"@[0] == 'p' && "power_set"@[1] == 'o');
        assert("power_set"@[2] == 'w' && "power_set"@[3] == 'e' && "power_set"@[4] == 'r');
        assert("power_set"@[5] == '_' && "power_set"@[6] == 's' && "power_set"@[7] == 'e');
        assert("power_set"@[8] == 't');
    }

    /// Reading what was written gives the same value back, custom text
    /// included.
    pub proof fn lemma_decode_encode(self)
        ensures
            Self::decode(self.encode()) == Some(self),
    {
        if !(self is Custom) {
            self.lemma_parse_tag();
        }
    }

    /// Only what writing gives is read: a value that stands for the property is
    /// the very value that is written for it.
    pub proof fn lemma_encode_decode(value: Json)
        requires
            Self::decode(value) is Some,
        ensures
            Self::decode(value)->Some_0.encode() == value,
    {
        match value {
            Json::Object(fields) => {
                assert(fields =~= Seq::empty().push(("custom"@, Json::Text(fields[0].1->Text_0))));
            },
            _ => {},
        }
    }
}

impl UnaryRelationOperatorNode {
    /// The fixed word of a case of the vocabulary; nothing for a custom one.
    fn fixed_word(&self) -> (word: Option<&'static str>)
        ensures
            word is None == (self@ is Custom),
            word matches Some(w) ==> w@ == self@.tag(),
    {
        match self {
            UnaryRelationOperatorNode::IsPrime => Some("is_prime"),
            UnaryRelationOperatorNode::IsComposite => Some("is_composite"),
            UnaryRelationOperatorNode::HasOrderInGroup => Some("has_order_in_group"),
            UnaryRelationOperatorNode::HasUniqueInverse => Some("has_unique_inverse"),
            UnaryRelationOperatorNode::IsPrimeIdeal => Some("is_prime_ideal"),
            UnaryRelationOperatorNode::IsMaximalIdeal => Some("is_maximal_ideal"),
            UnaryRelationOperatorNode::IsPrincipalIdeal => Some("is_principal_ideal"),
            UnaryRelationOperatorNode::IsUnit => Some("is_unit"),
            UnaryRelationOperatorNode::IsIrreducible => Some("is_irreducible"),
            UnaryRelationOperatorNode::IsPrimeElement => Some("is_prime_element"),
            UnaryRelationOperatorNode::IsField => Some("is_field"),
            UnaryRelationOperatorNode::IsIntegralDomain => Some("is_integral_domain"),
            UnaryRelationOperatorNode::IsUFD => Some("is_ufd"),
            UnaryRelationOperatorNode::IsPID => Some("is_pid"),
            UnaryRelationOperatorNode::IsCompact => Some("is_compact"),
            UnaryRelationOperatorNode::IsConnected => Some("is_connected"),
            UnaryRelationOperatorNode::IsContinuous => Some("is_continuous"),
            UnaryRelationOperatorNode::Converges => Some("converges"),
            UnaryRelationOperatorNode::IsHausdorff => Some("is_hausdorff"),
            UnaryRelationOperatorNode::IsObjectIn => Some("is_object_in"),
            UnaryRelationOperatorNode::IsEndomorphismIn => Some("is_endomorphism_in"),
            UnaryRelationOperatorNode::IsAutomorphismIn => Some("is_automorphism_in"),
            UnaryRelationOperatorNode::Complement => Some("complement"),
            UnaryRelationOperatorNode::PowerSet => Some("power_set"),
            UnaryRelationOperatorNode::Custom(_) => None,
        }
    }

    /// The case of the vocabulary that `word` stands for, if any.
    fn from_fixed_word(word: &str) -> (found: Option<UnaryRelationOperatorNode>)
        ensures
            found is Some == UnaryRelationOperatorModel::parse(word@) is Some,
            found matches Some(case) ==> UnaryRelationOperatorModel::parse(word@) == Some(case@),
    {
        if str_eq(word, "is_prime") {
            Some(UnaryRelationOperatorNode::IsPrime)
        } else if str_eq(word, "is_composite") {
            Some(UnaryRelationOperatorNode::IsComposite)
        } else if str_eq(word, "has_order_in_group") {
            Some(UnaryRelationOperatorNode::HasOrderInGroup)
        } else if str_eq(word, "has_unique_inverse") {
            Some(UnaryRelationOperatorNode::HasUniqueInverse)
        } else if str_eq(word, "is_prime_ideal") {
            Some(UnaryRelationOperatorNode::IsPrimeIdeal)
        } else if str_eq(word, "is_maximal_ideal") {
            Some(UnaryRelationOperatorNode::IsMaximalIdeal)
        } else if str_eq(word, "is_principal_ideal") {
            Some(UnaryRelationOperatorNode::IsPrincipalIdeal)
        } else if str_eq(word, "is_unit") {
            Some(UnaryRelationOperatorNode::IsUnit)
        } else if str_eq(word, "is_irreducible") {
            Some(UnaryRelationOperatorNode::IsIrreducible)
        } else if str_eq(word, "is_prime_element") {
            Some(UnaryRelationOperatorNode::IsPrimeElement)
        } else if str_eq(word, "is_field") {
            Some(UnaryRelationOperatorNode::IsField)
        } else if str_eq(word, "is_integral_domain") {
            Some(UnaryRelationOperatorNode::IsIntegralDomain)
        } else if str_eq(word, "is_ufd") {
            Some(UnaryRelationOperatorNode::IsUFD)
        } else if str_eq(word, "is_pid") {
            Some(UnaryRelationOperatorNode::IsPID)
        } else if str_eq(word, "is_compact") {
            Some(UnaryRelationOperatorNode::IsCompact)
        } else if str_eq(word, "is_connected") {
            Some(UnaryRelationOperatorNode::IsConnected)
        } else if str_eq(word, "is_continuous") {
            Some(UnaryRelationOperatorNode::IsContinuous)
        } else if str_eq(word, "converges") {
            Some(UnaryRelationOperatorNode::Converges)
        } else if str_eq(word, "is_hausdorff") {
            Some(UnaryRelationOperatorNode::IsHausdorff)
        } else if str_eq(word, "is_object_in") {
            Some(UnaryRelationOperatorNode::IsObjectIn)
        } else if str_eq(word, "is_endomorphism_in") {
            Some(UnaryRelationOperatorNode::IsEndomorphismIn)
        } else if str_eq(word, "is_automorphism_in") {
            Some(UnaryRelationOperatorNode::IsAutomorphismIn)
        } else if str_eq(word, "complement") {
            Some(UnaryRelationOperatorNode::Complement)
        } else if str_eq(word, "power_set") {
            Some(UnaryRelationOperatorNode::PowerSet)
        } else {
            None
        }
    }

    /// Writes the property in the interchange form.
    pub fn to_interchange(&self) -> (value: InterchangeValue)
        ensures
            value@ == self@.encode(),
    {
        match self.fixed_word() {
            Some(word) => text_value(word),
            None => match self {
                UnaryRelationOperatorNode::Custom(text) => {
                    let mut fields: Vec<(String, InterchangeValue)> = Vec::new();
                    push_field(&mut fields, "custom", text_value(text.as_str()));
                    assert(fields_view(Seq::<(String, InterchangeValue)>::empty())
                        =~= Seq::empty());
                    finish_object(fields)
                },
                _ => InterchangeValue::Null,
            },
        }
    }

    /// Reads the property from the interchange form.
    pub fn from_interchange(value: &InterchangeValue) -> (found: Option<UnaryRelationOperatorNode>)
        ensures
            found is Some == UnaryRelationOperatorModel::decode(value@) is Some,
            found matches Some(case) ==> UnaryRelationOperatorModel::decode(value@) == Some(case@),
    {
        match value {
            InterchangeValue::Text(word) => Self::from_fixed_word(word.as_str()),
            InterchangeValue::Object(fields) => {
                assert(value@->Object_0 =~= fields_view(fields@));
                if fields.len() != 1 {
                    return None;
                }
                match text_at(fields, 0, "custom") {
                    Some(text) => Some(UnaryRelationOperatorNode::Custom(text.clone())),
                    None => None,
                }
            },
            _ => None,
        }
    }
}

} // verus!
